//! Tests that run the kernel on its verified 64-bit integer scalar.

use ruxel::geometry::intersection::{hit, Intersection, Intxn};
use ruxel::geometry::matrix::{Matrix4, Matrix4Index, Matrix4Ops};
use ruxel::geometry::ray::{Ray, Rays};
use ruxel::geometry::vector::{Point, Point3, Tuple, Vector, Vector3};
use ruxel::scalar::Scalar;
use ruxel::shapes::sphere::Sphere;
use ruxel::shapes::Shape;

#[test]
// Aggregating intersections.
fn ut_intersection_aggregating() {
    let s: Sphere<i64> = Sphere::new(1);
    let i1 = Intxn::intersection(1, s);
    let i2 = Intxn::intersection(2, s);
    let xs = vec![i1, i2];
    assert_eq!(xs.len(), 2);
    assert_eq!(xs[0].t, 1);
    assert_eq!(xs[1].t, 2);
}

#[test]
// hit all intxns have positive t
fn ut_intersection_hit_positive_t() {
    let s: Sphere<i64> = Sphere::new(1);
    let i1 = Intxn::intersection(1, s);
    let i2 = Intxn::intersection(2, s);
    let xs = vec![i2, i1];
    let i = hit(xs);
    assert_eq!(i, Some(i1));
}

#[test]
// hit some intxns have negative t
fn ut_intersection_hit_negative_t() {
    let s: Sphere<i64> = Sphere::new(1);
    let i1 = Intxn::intersection(-1, s);
    let i2 = Intxn::intersection(1, s);
    let xs = vec![i2, i1];
    let i = hit(xs);
    assert_eq!(i, Some(i2));
}

#[test]
// hit all intxns have negative t
fn ut_intersection_hit_negative_all_t() {
    let s: Sphere<i64> = Sphere::new(1);
    let i1 = Intxn::intersection(-2, s);
    let i2 = Intxn::intersection(-1, s);
    let xs = vec![i2, i1];
    let i = hit(xs);
    assert_eq!(i, None);
}

#[test]
// hit is lowest non-negative inx
fn ut_intersection_hit_lowest_t() {
    let s: Sphere<i64> = Sphere::new(1);
    let i1 = Intxn::intersection(5, s);
    let i2 = Intxn::intersection(7, s);
    let i3 = Intxn::intersection(-3, s);
    let i4 = Intxn::intersection(2, s);
    let xs = vec![i2, i1, i3, i4];
    let i = hit(xs);
    assert_eq!(i, Some(i4));
}

#[test]
// hit on an empty collection is none: no visible hit is a normal outcome
fn hit_of_no_intersections_is_none() {
    let xs: Vec<Intxn<i64, Sphere<i64>>> = vec![];
    assert_eq!(hit(xs), None);
}

#[test]
// hit picks the visible entry even when the first entry lies behind the ray
fn hit_skips_leading_negative_t() {
    let s: Sphere<i64> = Sphere::new(1);
    let i1 = Intxn::intersection(-3, s);
    let i2 = Intxn::intersection(5, s);
    let xs = vec![i1, i2];
    let i = hit(xs);
    assert_eq!(i, Some(i2));
}

#[test]
// initialize a ray
fn ut_ray_initialization() {
    let origin: Point3<i64> = Point3::new(1, 2, 3);
    let direction: Vector3<i64> = Vector3::new(4, 5, 6);
    let ray = Ray::new(origin, direction);
    assert_eq!(ray.origin, origin);
    assert_eq!(ray.direction, direction);
}

#[test]
// translating ray
fn ut_ray_translation() {
    let ray: Ray<i64> = Ray::new(Point3::new(1, 2, 3), Vector3::up());
    let mat = Matrix4::identity().translate(3, 4, 5);
    let ray2 = Ray::transform(ray, mat);
    assert_eq!(ray2.origin, Point3::new(4, 6, 8));
    assert_eq!(ray2.direction, Vector3::up());
}

#[test]
// scaling ray
fn ut_ray_scaling() {
    let ray: Ray<i64> = Ray::new(Point3::new(1, 2, 3), Vector3::up());
    let mat = Matrix4::identity().scale(2, 3, 4);
    let ray2 = Ray::transform(ray, mat);
    assert_eq!(ray2.origin, Point3::new(2, 6, 12));
    assert_eq!(ray2.direction, Vector3::y_coord(3));
}

#[test]
// Sphere change transformation.
fn ut_sphere_change_transform() {
    let mut s: Sphere<i64> = Sphere::new(1);
    let t = Matrix4::identity().translate(2, 3, 4);
    s.set_transform(t);
    assert_eq!(s.transform, t);
}

#[test]
// the integer scalar's square root truncates toward zero
fn integer_magnitude_is_truncated_root() {
    let v: Vector3<i64> = Vector3::new(3, 4, 0);
    assert_eq!(v.magnitude(), 5);
    let w: Vector3<i64> = Vector3::new(1, 2, 3);
    assert_eq!(w.magnitude(), 3);
}

#[test]
// the integer scalar's ring operations
fn integer_scalar_operations() {
    assert_eq!(3i64.add(4), 7);
    assert_eq!(3i64.sub(4), -1);
    assert_eq!(3i64.mul(4), 12);
    assert_eq!(7i64.div(2), 3);
    assert_eq!((-7i64).div(2), -3);
    assert_eq!(3i64.neg(), -3);
    assert_eq!(i64::zero(), 0);
    assert_eq!(i64::one(), 1);
    assert!(3i64.lt(4));
    assert!(4i64.ge(4));
    assert!(3i64.eq_exact(3));
    assert!(3i64.almost_eq(3));
    assert_eq!(17i64.sqrt(), 4);
    assert_eq!((-5i64).sqrt(), 0);
    assert_eq!(0i64.sin(), 0);
    assert_eq!(0i64.cos(), 1);
    assert_eq!(5i64.cos(), 0);
}

#[test]
// transpose composes: the receiver becomes its transpose times itself
fn transpose_composes_onto_receiver() {
    let mut m: Matrix4<i64> = Matrix4::new(Some([
        [1, 2, 0, 0],
        [0, 1, 0, 0],
        [0, 0, 1, 0],
        [0, 0, 0, 1],
    ]));
    let r = m.transpose();
    let expected: Matrix4<i64> = Matrix4::new(Some([
        [1, 2, 0, 0],
        [2, 5, 0, 0],
        [0, 0, 1, 0],
        [0, 0, 0, 1],
    ]));
    assert_eq!(r, expected);
    assert_eq!(m, expected);
}

#[test]
// multiplying by the identity leaves an integer matrix unchanged
fn identity_is_neutral_for_integer_matrices() {
    let m: Matrix4<i64> = Matrix4::new(Some([
        [1, 2, 3, 4],
        [5, 6, 7, 8],
        [9, 8, 7, 6],
        [5, 4, 3, 2],
    ]));
    assert_eq!(m.mul(Matrix4::identity()), m);
    assert_eq!(Matrix4::identity().mul(m), m);
    let p: Point3<i64> = Point3::new(4, -2, 9);
    assert_eq!(Matrix4::identity().mul_point(p), p);
}

#[test]
// selecting rows and columns by index
fn get_row_and_col_select_correctly() {
    let m: Matrix4<i64> = Matrix4::new(Some([
        [1, 2, 3, 4],
        [5, 6, 7, 8],
        [9, 10, 11, 12],
        [13, 14, 15, 16],
    ]));
    assert_eq!(m.get_row(Matrix4Index::Two), [5, 6, 7, 8]);
    assert_eq!(m.get_row(Matrix4Index::Four), [13, 14, 15, 16]);
    assert_eq!(m.get_col(Matrix4Index::One), [1, 5, 9, 13]);
    assert_eq!(m.get_col(Matrix4Index::Three), [3, 7, 11, 15]);
}

#[test]
// the trait entry points agree with the inherent methods
fn trait_views_agree_with_methods() {
    let m = <Matrix4<i64> as Matrix4Ops<i64>>::identity();
    assert_eq!(m, Matrix4::identity());
    assert_eq!(<Matrix4<i64> as Matrix4Ops<i64>>::zero(), Matrix4::zero());

    let v = <Vector3<i64> as Tuple<i64>>::new(1, 2, 3);
    assert_eq!(v, Vector3::new(1, 2, 3));
    assert_eq!(<Vector3<i64> as Vector<i64>>::up(), Vector3::up());
    assert_eq!(<Vector3<i64> as Vector<i64>>::dot(v, v), 14);
    let p = <Point3<i64> as Tuple<i64>>::new(0, 0, -5);
    assert_eq!(p, Point3::new(0, 0, -5));
    let mut q = p;
    assert_eq!(<Point3<i64> as Point<i64>>::origin(&mut q), Point3::zero());

    let ray = <Ray<i64> as Rays<i64>>::new(p, Vector3::forward());
    assert_eq!(ray.origin, p);

    let s = <Sphere<i64> as Shape<i64>>::new(9);
    assert_eq!(s.get_id(), 9);
    let i = <Intxn<i64, Sphere<i64>> as Intersection<i64, Sphere<i64>>>::intersection(4, s);
    assert_eq!(i.t, 4);

    let xs = <Sphere<i64> as Shape<i64>>::intersect(s, ray);
    assert_eq!(xs.len(), 2);
    assert_eq!(xs[0].t, 4);
    assert_eq!(xs[1].t, 6);
}

#[test]
// translation leaves an integer vector untouched
fn translation_is_noop_on_integer_vectors() {
    let v: Vector3<i64> = Vector3::new(8, -3, 12);
    let m = Matrix4::identity().translate(5, 7, -2);
    assert_eq!(v.mul_matrix(m), v);
}
