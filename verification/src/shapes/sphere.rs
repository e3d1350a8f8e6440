//! The unit sphere as a scene shape: an identifier, a name, an origin
//! and a transform from object space to world space, with ray
//! intersection through the inverse transform.

use vstd::prelude::*;

use crate::scalar::Scalar;
use crate::shapes::Shape;
use crate::geometry::intersection::{Intxn, IntxnVec};
use crate::geometry::matrix::{apply_point_s, apply_vec_s, det4_s, inverse_s, mat4_identity_s, Matrix4};
use crate::geometry::ray::Ray;
use crate::geometry::vector::{dot_s, Point3, Vector3};

verus! {

/// A sphere in a scene.  In its own object space it is always the unit
/// sphere at the origin; size and placement live in the transform.
#[derive(Clone, Copy, Debug)]
pub struct Sphere<P> {
    /// The identifier of the sphere.
    pub id: i32,
    /// The name of the shape kind.
    pub name: &'static str,
    /// The origin of the sphere in world space.
    pub origin: Point3<P>,
    /// The transform from the sphere's object space to world space.
    pub transform: Matrix4<P>,
}

/// Two, as a scalar.
pub open spec fn two_s<P: Scalar>() -> P {
    P::add_s(P::one_s(), P::one_s())
}

/// Four, as a scalar: two times two.
pub open spec fn four_s<P: Scalar>() -> P {
    P::mul_s(two_s::<P>(), two_s::<P>())
}

/// The incoming world-space ray carried into the sphere's object space
/// by the inverse of the sphere's transform.
pub open spec fn object_ray_s<P: Scalar>(m: Matrix4<P>, ray: Ray<P>) -> Ray<P> {
    Ray {
        origin: apply_point_s(inverse_s(m), ray.origin),
        direction: apply_vec_s(inverse_s(m), ray.direction),
    }
}

/// The vector from the object-space origin to the object-space ray's
/// origin.
pub open spec fn sphere_to_ray_s<P: Scalar>(m: Matrix4<P>, ray: Ray<P>) -> Vector3<P> {
    let o = object_ray_s(m, ray).origin;
    Vector3 {
        x: P::sub_s(o.x, P::zero_s()),
        y: P::sub_s(o.y, P::zero_s()),
        z: P::sub_s(o.z, P::zero_s()),
        w: P::sub_s(o.w, P::one_s()),
    }
}

/// The quadratic's leading coefficient: the direction dotted with
/// itself.
pub open spec fn sphere_a_s<P: Scalar>(m: Matrix4<P>, ray: Ray<P>) -> P {
    let d = object_ray_s(m, ray).direction;
    dot_s(d, d)
}

/// The quadratic's middle coefficient: twice the direction dotted with
/// the origin offset.
pub open spec fn sphere_b_s<P: Scalar>(m: Matrix4<P>, ray: Ray<P>) -> P {
    let d = object_ray_s(m, ray).direction;
    P::mul_s(two_s::<P>(), dot_s(d, sphere_to_ray_s(m, ray)))
}

/// The quadratic's constant coefficient: the origin offset dotted with
/// itself, minus one for the unit radius.
pub open spec fn sphere_c_s<P: Scalar>(m: Matrix4<P>, ray: Ray<P>) -> P {
    let s2r = sphere_to_ray_s(m, ray);
    P::sub_s(dot_s(s2r, s2r), P::one_s())
}

/// The discriminant `b*b - 4*a*c` of the sphere's quadratic.
pub open spec fn sphere_disc_s<P: Scalar>(m: Matrix4<P>, ray: Ray<P>) -> P {
    let a = sphere_a_s(m, ray);
    let b = sphere_b_s(m, ray);
    let c = sphere_c_s(m, ray);
    P::sub_s(P::mul_s(b, b), P::mul_s(P::mul_s(four_s::<P>(), a), c))
}

/// The smaller root: `(-b - sqrt(disc)) / (2*a)`.
pub open spec fn sphere_t1_s<P: Scalar>(m: Matrix4<P>, ray: Ray<P>) -> P {
    let a = sphere_a_s(m, ray);
    let b = sphere_b_s(m, ray);
    P::div_s(
        P::sub_s(P::neg_s(b), P::sqrt_s(sphere_disc_s(m, ray))),
        P::mul_s(two_s::<P>(), a),
    )
}

/// The larger root: `(-b + sqrt(disc)) / (2*a)`.
pub open spec fn sphere_t2_s<P: Scalar>(m: Matrix4<P>, ray: Ray<P>) -> P {
    let a = sphere_a_s(m, ray);
    let b = sphere_b_s(m, ray);
    P::div_s(
        P::add_s(P::neg_s(b), P::sqrt_s(sphere_disc_s(m, ray))),
        P::mul_s(two_s::<P>(), a),
    )
}

impl<P: Scalar> Sphere<P> {
    /// A sphere with the given identifier, named "sphere", at the world
    /// origin, with the identity transform.
    pub fn new(id: i32) -> (r: Self)
        ensures
            r.id == id,
            r.name@ == "sphere"@,
            r.origin.x == P::zero_s(),
            r.origin.y == P::zero_s(),
            r.origin.z == P::zero_s(),
            r.origin.w == P::one_s(),
            r.transform == mat4_identity_s::<P>(),
    {
        proof {
            reveal_strlit("sphere");
        }
        Sphere { id, name: "sphere", origin: Point3::zero(), transform: Matrix4::identity() }
    }

    /// The identifier of the sphere.
    pub fn get_id(&self) -> (r: i32)
        ensures
            r == self.id,
    {
        self.id
    }

    /// The name of the shape kind.
    pub fn get_name(&self) -> (r: &'static str)
        ensures
            r@ == self.name@,
    {
        self.name
    }

    /// The origin of the sphere in world space.
    pub fn get_origin(&self) -> (r: Point3<P>)
        ensures
            r == self.origin,
    {
        self.origin
    }

    /// The transform of the sphere.
    pub fn get_transform(&self) -> (r: Matrix4<P>)
        ensures
            r == self.transform,
    {
        self.transform
    }

    /// Replaces the sphere's transform; everything else is unchanged.
    pub fn set_transform(&mut self, mat: Matrix4<P>)
        ensures
            final(self).transform == mat,
            final(self).id == old(self).id,
            final(self).name == old(self).name,
            final(self).origin == old(self).origin,
    {
        self.transform = mat;
    }

    /// The intersections of a world-space ray with the sphere.
    ///
    /// The ray is first carried into object space by the inverse of the
    /// sphere's transform, so the transform must be invertible.  A
    /// negative discriminant means the ray misses: the result is empty,
    /// and that is a normal outcome.  Otherwise the result holds exactly
    /// the two roots in order, each tagged with a copy of the sphere; a
    /// tangent ray yields the same root twice.
    pub fn intersect(shape: Sphere<P>, ray: Ray<P>) -> (r: IntxnVec<P, Sphere<P>>)
        requires
            det4_s(shape.transform) != P::zero_s(),
        ensures
            P::lt_s(sphere_disc_s(shape.transform, ray), P::zero_s()) ==> r@.len() == 0,
            !P::lt_s(sphere_disc_s(shape.transform, ray), P::zero_s()) ==> {
                &&& r@.len() == 2
                &&& r@[0].t == sphere_t1_s(shape.transform, ray)
                &&& r@[0].object == shape
                &&& r@[1].t == sphere_t2_s(shape.transform, ray)
                &&& r@[1].object == shape
            },
    {
        let inv = shape.get_transform().inverse();
        let ray2 = Ray::transform(ray, inv);
        let sphere_to_ray = ray2.origin.sub(Point3::zero());
        let a = Vector3::dot(ray2.direction, ray2.direction);
        let two = P::one().add(P::one());
        let b = two.mul(Vector3::dot(ray2.direction, sphere_to_ray));
        let c = Vector3::dot(sphere_to_ray, sphere_to_ray).sub(P::one());
        let four = two.mul(two);
        let discriminant = b.mul(b).sub(four.mul(a).mul(c));
        if discriminant.lt(P::zero()) {
            Vec::new()
        } else {
            let sq = discriminant.sqrt();
            let t1 = b.neg().sub(sq).div(two.mul(a));
            let t2 = b.neg().add(sq).div(two.mul(a));
            let i1 = Intxn::intersection(t1, shape);
            let i2 = Intxn::intersection(t2, shape);
            let mut xs: IntxnVec<P, Sphere<P>> = Vec::new();
            xs.push(i1);
            xs.push(i2);
            xs
        }
    }
}

impl<P: Scalar> Shape<P> for Sphere<P> {
    open spec fn id_s(s: Self) -> i32 {
        s.id
    }

    open spec fn name_s(s: Self) -> Seq<char> {
        s.name@
    }

    open spec fn origin_s(s: Self) -> Point3<P> {
        s.origin
    }

    open spec fn transform_s(s: Self) -> Matrix4<P> {
        s.transform
    }

    fn get_id(&self) -> i32 {
        Sphere::get_id(self)
    }

    fn get_name(&self) -> &'static str {
        Sphere::get_name(self)
    }

    fn get_origin(&self) -> Point3<P> {
        Sphere::get_origin(self)
    }

    fn get_transform(&self) -> Matrix4<P> {
        Sphere::get_transform(self)
    }

    fn intersect(shape: Self, ray: Ray<P>) -> IntxnVec<P, Self> {
        Sphere::intersect(shape, ray)
    }

    fn new(id: i32) -> Self {
        Sphere::new(id)
    }

    fn set_transform(&mut self, mat: Matrix4<P>) {
        Sphere::set_transform(self, mat)
    }
}

} // verus!
