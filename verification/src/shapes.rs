//! Shapes a ray can intersect.  The unit sphere is the one concrete
//! shape: its radius lives entirely in its transform, which maps the
//! sphere's own object space into world space.

use vstd::prelude::*;

use crate::scalar::Scalar;
use crate::geometry::intersection::IntxnVec;
use crate::geometry::matrix::{det4_s, mat4_identity_s, Matrix4};
use crate::geometry::ray::Ray;
use crate::geometry::vector::Point3;
use crate::shapes::sphere::{sphere_disc_s, sphere_t1_s, sphere_t2_s};

/// The transform-carrying sphere and its ray intersection.
pub mod sphere;

/// The standalone sphere described by a center and a radius.
pub mod primitive;

verus! {

/// What every concrete shape supports: identification, an origin, a
/// transform from object space to world space, and intersection with a
/// ray.  In object space every shape is the unit sphere at the origin,
/// so the intersection contract states the sphere quadratic over the
/// shape's transform.
pub trait Shape<P: Scalar>: Sized + Copy {
    /// The identifier a shape records.
    spec fn id_s(s: Self) -> i32;

    /// The characters of a shape's kind name.
    spec fn name_s(s: Self) -> Seq<char>;

    /// The world-space origin a shape records.
    spec fn origin_s(s: Self) -> Point3<P>;

    /// The transform a shape records.
    spec fn transform_s(s: Self) -> Matrix4<P>;

    /// The identifier of the shape.
    fn get_id(&self) -> (r: i32)
        ensures
            r == Self::id_s(*self),
    ;

    /// The name of the shape kind.
    fn get_name(&self) -> (r: &'static str)
        ensures
            r@ == Self::name_s(*self),
    ;

    /// The origin of the shape in world space.
    fn get_origin(&self) -> (r: Point3<P>)
        ensures
            r == Self::origin_s(*self),
    ;

    /// The transform of the shape.
    fn get_transform(&self) -> (r: Matrix4<P>)
        ensures
            r == Self::transform_s(*self),
    ;

    /// The intersections of a world-space ray with a shape, through the
    /// inverse of the shape's transform: empty on a miss, and the two
    /// roots in order otherwise, each tagged with a copy of the shape.
    fn intersect(shape: Self, ray: Ray<P>) -> (r: IntxnVec<P, Self>)
        requires
            det4_s(Self::transform_s(shape)) != P::zero_s(),
        ensures
            P::lt_s(sphere_disc_s(Self::transform_s(shape), ray), P::zero_s()) ==> r@.len() == 0,
            !P::lt_s(sphere_disc_s(Self::transform_s(shape), ray), P::zero_s()) ==> {
                &&& r@.len() == 2
                &&& r@[0].t == sphere_t1_s(Self::transform_s(shape), ray)
                &&& r@[0].object == shape
                &&& r@[1].t == sphere_t2_s(Self::transform_s(shape), ray)
                &&& r@[1].object == shape
            },
    ;

    /// A new shape with the given identifier, at the world origin, with
    /// the identity transform.
    fn new(id: i32) -> (r: Self)
        ensures
            Self::id_s(r) == id,
            Self::origin_s(r).x == P::zero_s(),
            Self::origin_s(r).y == P::zero_s(),
            Self::origin_s(r).z == P::zero_s(),
            Self::origin_s(r).w == P::one_s(),
            Self::transform_s(r) == mat4_identity_s::<P>(),
    ;

    /// Replaces the shape's transform; everything else is unchanged.
    fn set_transform(&mut self, mat: Matrix4<P>)
        ensures
            Self::transform_s(*final(self)) == mat,
            Self::id_s(*final(self)) == Self::id_s(*old(self)),
            Self::name_s(*final(self)) == Self::name_s(*old(self)),
            Self::origin_s(*final(self)) == Self::origin_s(*old(self)),
    ;
}

} // verus!
