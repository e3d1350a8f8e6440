//! Rays: an origin point and a direction vector, the parametric position
//! along the ray, and transformation by a matrix.
//!
//! The direction's magnitude is deliberately unconstrained: an
//! unnormalised direction is legal and changes what one unit of the
//! parameter `t` means.

use vstd::prelude::*;

use crate::scalar::Scalar;
use crate::geometry::matrix::{apply_point_s, apply_vec_s, Matrix4};
use crate::geometry::vector::{Point3, Vector3};

verus! {

/// A ray, with an origin point and a direction vector.
#[derive(Clone, Copy, Debug)]
pub struct Ray<P> {
    /// The origin of the ray.
    pub origin: Point3<P>,
    /// The direction of the ray.
    pub direction: Vector3<P>,
}

/// The point at parameter `t` along a ray: the origin plus the direction
/// scaled by `t`.  A negative `t` lies behind the origin.
pub open spec fn ray_position_s<P: Scalar>(ray: Ray<P>, t: P) -> Point3<P> {
    Point3 {
        x: P::add_s(ray.origin.x, P::mul_s(ray.direction.x, t)),
        y: P::add_s(ray.origin.y, P::mul_s(ray.direction.y, t)),
        z: P::add_s(ray.origin.z, P::mul_s(ray.direction.z, t)),
        w: P::add_s(ray.origin.w, P::mul_s(ray.direction.w, t)),
    }
}

/// Common operations on rays.
pub trait Rays<P: Scalar>: Sized {
    /// The origin a constructed ray records.
    spec fn origin_s(r: Self) -> Point3<P>;

    /// The direction a constructed ray records.
    spec fn direction_s(r: Self) -> Vector3<P>;

    /// A ray from an origin and a direction.
    fn new(origin: Point3<P>, direction: Vector3<P>) -> (r: Self)
        ensures
            Self::origin_s(r) == origin,
            Self::direction_s(r) == direction,
    ;

    /// The point at parameter `t` along a ray.
    fn position(ray: Ray<P>, t: P) -> (r: Point3<P>)
        ensures
            r == ray_position_s(ray, t),
    ;

    /// A ray transformed by a matrix, both fields independently.
    fn transform(ray: Ray<P>, mat: Matrix4<P>) -> (r: Ray<P>)
        ensures
            r.origin == apply_point_s(mat, ray.origin),
            r.direction == apply_vec_s(mat, ray.direction),
    ;
}

impl<P: Scalar> Rays<P> for Ray<P> {
    open spec fn origin_s(r: Self) -> Point3<P> {
        r.origin
    }

    open spec fn direction_s(r: Self) -> Vector3<P> {
        r.direction
    }

    fn new(origin: Point3<P>, direction: Vector3<P>) -> Self {
        Ray::new(origin, direction)
    }

    fn position(ray: Ray<P>, t: P) -> Point3<P> {
        Ray::position(ray, t)
    }

    fn transform(ray: Ray<P>, mat: Matrix4<P>) -> Ray<P> {
        Ray::transform(ray, mat)
    }
}

impl<P: Scalar> Ray<P> {
    /// A ray from an origin and a direction; nothing is validated.
    pub fn new(origin: Point3<P>, direction: Vector3<P>) -> (r: Self)
        ensures
            r.origin == origin,
            r.direction == direction,
    {
        Ray { origin, direction }
    }

    /// The point at parameter `t` along the ray.
    pub fn position(ray: Ray<P>, t: P) -> (r: Point3<P>)
        ensures
            r == ray_position_s(ray, t),
    {
        ray.origin.add_vector(ray.direction.mul(t))
    }

    /// The ray transformed by a matrix: the matrix is applied to the
    /// origin and to the direction independently, and the direction is
    /// not renormalised.  The given ray is untouched.
    pub fn transform(ray: Ray<P>, mat: Matrix4<P>) -> (r: Ray<P>)
        ensures
            r.origin == apply_point_s(mat, ray.origin),
            r.direction == apply_vec_s(mat, ray.direction),
    {
        Ray { origin: mat.mul_point(ray.origin), direction: mat.mul_vector(ray.direction) }
    }
}

} // verus!
