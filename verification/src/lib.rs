//! Ruxel is the geometric kernel of a small ray tracer: homogeneous
//! points and vectors, 4x4 matrices with determinant, inverse and the
//! named transform builders, rays, and ray-sphere intersection with a
//! visible-hit selection rule.
//!
//! Every algorithm is generic over the numeric scalar through the
//! [`scalar::Scalar`] trait, and is verified against exact contracts
//! stated over that trait's specification functions.

pub mod geometry;
pub mod scalar;
pub mod shapes;
