//! Points, vectors, matrices, rays and intersections: the geometric
//! heart of the kernel.

/// Provides data structures, methods and specifications for 4x4 matrix
/// computations.
pub mod matrix;

/// Data structures and methods for `Vector3` and `Point3` computations.
pub mod vector;

/// Data structures and methods for ray computations.
pub mod ray;

/// Data structures and methods for intersection bookkeeping and the
/// visible-hit selection rule.
pub mod intersection;
