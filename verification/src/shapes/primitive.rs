//! The standalone sphere: a center point and a radius, with a direct
//! ray intersection that returns the two roots as a pair.
//!
//! Only the unit radius takes part in the intersection test; a sphere of
//! another size is expressed through a transform on the scene shape
//! instead.

use vstd::prelude::*;

use crate::scalar::Scalar;
use crate::geometry::ray::Ray;
use crate::geometry::vector::{dot_s, Point3, Vector3};
use crate::shapes::sphere::{four_s, two_s};

verus! {

/// A sphere given by its center and radius.
#[derive(Clone, Copy, Debug)]
pub struct Sphere<P> {
    center: Point3<P>,
    radius: P,
}

impl<P: Scalar> Sphere<P> {
    /// The center of the sphere.
    pub closed spec fn center_s(self) -> Point3<P> {
        self.center
    }

    /// The radius of the sphere.
    pub closed spec fn radius_s(self) -> P {
        self.radius
    }

    /// A sphere at the given center with the given radius.
    pub fn new(center: Point3<P>, radius: P) -> (r: Self)
        ensures
            r.center_s() == center,
            r.radius_s() == radius,
    {
        Sphere { center, radius }
    }

    /// The unit sphere: centered at the origin, with radius one.
    pub fn new_unit() -> (r: Self)
        ensures
            r.center_s().x == P::zero_s(),
            r.center_s().y == P::zero_s(),
            r.center_s().z == P::zero_s(),
            r.center_s().w == P::one_s(),
            r.radius_s() == P::one_s(),
    {
        Sphere { center: Point3::new(P::zero(), P::zero(), P::zero()), radius: P::one() }
    }

    /// The intersection parameters of a ray with the unit sphere at this
    /// sphere's center: none on a miss, and both roots in order
    /// otherwise, equal for a tangent ray.
    pub fn intersect(self, ray: Ray<P>) -> (r: Option<(P, P)>)
        ensures
            P::lt_s(center_disc_s(self, ray), P::zero_s()) <==> r is None,
            !P::lt_s(center_disc_s(self, ray), P::zero_s()) ==> r == Some(
                (center_t1_s(self, ray), center_t2_s(self, ray)),
            ),
    {
        let sphere_to_ray = ray.origin.sub(self.center);
        let a = Vector3::dot(ray.direction, ray.direction);
        let two = P::one().add(P::one());
        let b = two.mul(Vector3::dot(ray.direction, sphere_to_ray));
        let c = Vector3::dot(sphere_to_ray, sphere_to_ray).sub(P::one());
        let four = two.mul(two);
        let discriminant = b.mul(b).sub(four.mul(a).mul(c));
        if discriminant.lt(P::zero()) {
            None
        } else {
            let sq = discriminant.sqrt();
            let t1 = b.neg().sub(sq).div(two.mul(a));
            let t2 = b.neg().add(sq).div(two.mul(a));
            Some((t1, t2))
        }
    }
}

/// The vector from this sphere's center to the ray's origin.
pub open spec fn center_to_ray_s<P: Scalar>(sphere: Sphere<P>, ray: Ray<P>) -> Vector3<P> {
    let o = ray.origin;
    let c = sphere.center_s();
    Vector3 {
        x: P::sub_s(o.x, c.x),
        y: P::sub_s(o.y, c.y),
        z: P::sub_s(o.z, c.z),
        w: P::sub_s(o.w, c.w),
    }
}

/// The discriminant `b*b - 4*a*c` of the quadratic for this sphere.
pub open spec fn center_disc_s<P: Scalar>(sphere: Sphere<P>, ray: Ray<P>) -> P {
    let d = ray.direction;
    let s2r = center_to_ray_s(sphere, ray);
    let a = dot_s(d, d);
    let b = P::mul_s(two_s::<P>(), dot_s(d, s2r));
    let c = P::sub_s(dot_s(s2r, s2r), P::one_s());
    P::sub_s(P::mul_s(b, b), P::mul_s(P::mul_s(four_s::<P>(), a), c))
}

/// The smaller root: `(-b - sqrt(disc)) / (2*a)`.
pub open spec fn center_t1_s<P: Scalar>(sphere: Sphere<P>, ray: Ray<P>) -> P {
    let d = ray.direction;
    let s2r = center_to_ray_s(sphere, ray);
    let a = dot_s(d, d);
    let b = P::mul_s(two_s::<P>(), dot_s(d, s2r));
    P::div_s(
        P::sub_s(P::neg_s(b), P::sqrt_s(center_disc_s(sphere, ray))),
        P::mul_s(two_s::<P>(), a),
    )
}

/// The larger root: `(-b + sqrt(disc)) / (2*a)`.
pub open spec fn center_t2_s<P: Scalar>(sphere: Sphere<P>, ray: Ray<P>) -> P {
    let d = ray.direction;
    let s2r = center_to_ray_s(sphere, ray);
    let a = dot_s(d, d);
    let b = P::mul_s(two_s::<P>(), dot_s(d, s2r));
    P::div_s(
        P::add_s(P::neg_s(b), P::sqrt_s(center_disc_s(sphere, ray))),
        P::mul_s(two_s::<P>(), a),
    )
}

} // verus!
