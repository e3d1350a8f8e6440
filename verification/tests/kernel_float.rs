//! Tests that run the kernel on a 64-bit floating-point scalar, defined
//! here as a newtype implementing the library's `Scalar` trait with the
//! kernel's epsilon of 1e-4.

use ruxel::geometry::intersection::{hit, Intxn};
use ruxel::geometry::matrix::{Matrix2, Matrix3, Matrix4};
use ruxel::geometry::ray::Ray;
use ruxel::geometry::vector::{Point3, Vector3};
use ruxel::scalar::Scalar;
use ruxel::shapes::primitive::Sphere as PrimitiveSphere;
use ruxel::shapes::sphere::Sphere;

use std::f64::consts::PI;

/// A 64-bit float scalar for the kernel; equality is within 1e-4.
#[derive(Clone, Copy, Debug)]
struct Fx(f64);

impl PartialEq for Fx {
    fn eq(&self, other: &Self) -> bool {
        (self.0 - other.0).abs() < 1e-4
    }
}

impl Scalar for Fx {
    // The *_s and law_* members are the trait's specification side; at
    // runtime nothing ever calls them, but the trait still lists them,
    // so inert bodies stand in for them here.
    fn add_s(a: Self, b: Self) -> Self {
        a.add(b)
    }

    fn sub_s(a: Self, b: Self) -> Self {
        a.sub(b)
    }

    fn mul_s(a: Self, b: Self) -> Self {
        a.mul(b)
    }

    fn div_s(a: Self, b: Self) -> Self {
        a.div(b)
    }

    fn neg_s(a: Self) -> Self {
        a.neg()
    }

    fn zero_s() -> Self {
        Fx(0.0)
    }

    fn one_s() -> Self {
        Fx(1.0)
    }

    fn lt_s(a: Self, b: Self) -> bool {
        a.lt(b)
    }

    fn ge_s(a: Self, b: Self) -> bool {
        a.ge(b)
    }

    fn almost_eq_s(a: Self, b: Self) -> bool {
        a.almost_eq(b)
    }

    fn sqrt_s(a: Self) -> Self {
        a.sqrt()
    }

    fn sin_s(a: Self) -> Self {
        a.sin()
    }

    fn cos_s(a: Self) -> Self {
        a.cos()
    }

    fn law_add_zero(_a: Self) {
    }

    fn law_mul_one(_a: Self) {
    }

    fn law_mul_zero(_a: Self) {
    }

    fn law_sub_self(_a: Self) {
    }

    fn law_sub_zero(_a: Self) {
    }

    fn law_lt_irrefl(_a: Self) {
    }

    fn law_lt_trans(_a: Self, _b: Self, _c: Self) {
    }

    fn law_almost_eq_refl(_a: Self) {
    }

    fn add(self, rhs: Self) -> Self {
        Fx(self.0 + rhs.0)
    }

    fn sub(self, rhs: Self) -> Self {
        Fx(self.0 - rhs.0)
    }

    fn mul(self, rhs: Self) -> Self {
        Fx(self.0 * rhs.0)
    }

    fn div(self, rhs: Self) -> Self {
        Fx(self.0 / rhs.0)
    }

    fn neg(self) -> Self {
        Fx(-self.0)
    }

    fn zero() -> Self {
        Fx(0.0)
    }

    fn one() -> Self {
        Fx(1.0)
    }

    fn lt(self, rhs: Self) -> bool {
        self.0 < rhs.0
    }

    fn ge(self, rhs: Self) -> bool {
        self.0 >= rhs.0
    }

    fn eq_exact(self, rhs: Self) -> bool {
        self.0 == rhs.0
    }

    fn almost_eq(self, rhs: Self) -> bool {
        (self.0 - rhs.0).abs() < 1e-4
    }

    fn sqrt(self) -> Self {
        Fx(self.0.sqrt())
    }

    fn sin(self) -> Self {
        Fx(self.0.sin())
    }

    fn cos(self) -> Self {
        Fx(self.0.cos())
    }
}

#[test]
// Encapsulation of 't' and object
fn ut_intersection_encapsulation() {
    let s: Sphere<Fx> = Sphere::new(1);
    let i = Intxn::intersection(Fx(3.5), s);
    assert_eq!(i.t, Fx(3.5));
    assert_eq!(i.object.get_name(), "sphere");
}

#[test]
fn test_matrix_creation() {
    let m_one: Matrix4<Fx> = Matrix4::one();
    let m_zero: Matrix4<Fx> = Matrix4::zero();
    let m_iden: Matrix4<Fx> = Matrix4::identity();
    assert_eq!(m_one.mul(m_iden), m_one);
    assert_eq!(m_zero, Matrix4::new(None));

    let m1 = Matrix4::new(Some([
        [Fx(9.193), Fx(8.122), Fx(18.513), Fx(21.351)],
        [Fx(3.697), Fx(15.399), Fx(9.425), Fx(14.905)],
        [Fx(5.861), Fx(22.291), Fx(12.845), Fx(10.048)],
        [Fx(6.480), Fx(3.595), Fx(5.990), Fx(14.386)],
    ]));
    assert_eq!(m1, m1);

    let m2 = Matrix4::new(Some([
        [Fx(32232384774520380928328947.5819), Fx(25.381), Fx(17.8357), Fx(71.0214)],
        [Fx(90.4163), Fx(37.8278), Fx(49.0731), Fx(89.71829839028379874837948029382)],
        [Fx(75.0119), Fx(11.617), Fx(8.005), Fx(63299249080294230.7788)],
        [
            Fx(50.8061),
            Fx(31.783),
            Fx(25.5009),
            Fx(0000000000000000000000000000000000000000000000000000000.2281),
        ],
    ]));
    assert_eq!(m2, m2);

    let m3: Matrix4<Fx> = Matrix4::new(None);
    assert_eq!(m3, m_zero);
}

#[test]
fn test_matrix_equality() {
    let m1 = Matrix4::new(Some([
        [Fx(34.7777f64), Fx(86.9876f64), Fx(44.552f64), Fx(51.213f64)],
        [Fx(16.3014f64), Fx(98.8141f64), Fx(53.107f64), Fx(33.649f64)],
        [Fx(58.6944f64), Fx(39.5563f64), Fx(48.3533f64), Fx(50.7128f64)],
        [Fx(19.2097f64), Fx(91.2242f64), Fx(78.8212f64), Fx(81.5701f64)],
    ]));
    let m2 = Matrix4::new(Some([
        [Fx(34.7777f64), Fx(86.9876f64), Fx(44.552f64), Fx(51.213f64)],
        [Fx(16.3014f64), Fx(98.8141f64), Fx(53.107f64), Fx(33.649f64)],
        [Fx(58.6944f64), Fx(39.5563f64), Fx(48.3533f64), Fx(50.7128f64)],
        [Fx(19.2097f64), Fx(91.2242f64), Fx(78.8212f64), Fx(81.5702f64)],
    ]));
    assert!(m1 == m1);
    assert!(m1 != m2);
    assert_eq!(m1, m1);
    assert_ne!(m1, m2);
}

#[test]
fn test_matrix_multiplication() {
    let m1 = Matrix4::new(Some([
        [Fx(1f64), Fx(2f64), Fx(3f64), Fx(4f64)],
        [Fx(5f64), Fx(6f64), Fx(7f64), Fx(8f64)],
        [Fx(9f64), Fx(8f64), Fx(7f64), Fx(6f64)],
        [Fx(5f64), Fx(4f64), Fx(3f64), Fx(2f64)],
    ]));
    let m2 = Matrix4::new(Some([
        [Fx(-2f64), Fx(1f64), Fx(2f64), Fx(3f64)],
        [Fx(3f64), Fx(2f64), Fx(1f64), Fx(-1f64)],
        [Fx(4f64), Fx(3f64), Fx(6f64), Fx(5f64)],
        [Fx(1f64), Fx(2f64), Fx(7f64), Fx(8f64)],
    ]));
    assert_eq!(
        m1.mul(m2),
        Matrix4::new(Some([
            [Fx(20f64), Fx(22f64), Fx(50f64), Fx(48f64)],
            [Fx(44f64), Fx(54f64), Fx(114f64), Fx(108f64)],
            [Fx(40f64), Fx(58f64), Fx(110f64), Fx(102f64)],
            [Fx(16f64), Fx(26f64), Fx(46f64), Fx(42f64)],
        ]))
    );
    let m3 = Matrix4::new(Some([
        [Fx(1f64), Fx(2f64), Fx(3f64), Fx(4f64)],
        [Fx(2f64), Fx(4f64), Fx(4f64), Fx(2f64)],
        [Fx(8f64), Fx(6f64), Fx(4f64), Fx(1f64)],
        [Fx(0f64), Fx(0f64), Fx(0f64), Fx(1f64)],
    ]));
    let v3 = Vector3 { x: Fx(1.00), y: Fx(2.00), z: Fx(3.00), w: Fx(1.00) };
    assert!(m3.mul_vector(v3) == Vector3 { x: Fx(18f64), y: Fx(24f64), z: Fx(33f64), w: Fx(1f64) });
    assert_eq!(m3.mul_vector(v3), v3.mul_matrix(m3));

    // test identity matrix multiplication
    assert_eq!(m3, m3.mul(Matrix4::identity()));
    assert_eq!(
        Matrix4::identity().mul_vector(Vector3 { x: Fx(1.0), y: Fx(2.0), z: Fx(3.0), w: Fx(1.0) }),
        Vector3 { x: Fx(1.0), y: Fx(2.0), z: Fx(3.0), w: Fx(1.0) }
    );
}

#[test]
fn test_matrix_transpose() {
    let mut m1 = Matrix4::new(Some([
        [Fx(0f64), Fx(9f64), Fx(3f64), Fx(0f64)],
        [Fx(9f64), Fx(8f64), Fx(0f64), Fx(8f64)],
        [Fx(1f64), Fx(8f64), Fx(5f64), Fx(3f64)],
        [Fx(0f64), Fx(0f64), Fx(5f64), Fx(8f64)],
    ]));

    let _ = m1.transpose();
}

#[test]
fn test_submatrix_minor_cofactor() {
    let mut mx2: Matrix2<Fx> = Matrix2::new();
    mx2.m[0][0] = Fx(1f64);
    mx2.m[0][1] = Fx(5f64);
    mx2.m[1][0] = Fx(-3f64);
    mx2.m[1][1] = Fx(2f64);
    assert_eq!(Fx(17f64), mx2.determinant());

    let mut mx3: Matrix3<Fx> = Matrix3::new();
    mx3.m[0][0] = Fx(1f64);
    mx3.m[0][1] = Fx(5f64);
    mx3.m[0][2] = Fx(0f64);
    mx3.m[1][0] = Fx(-3f64);
    mx3.m[1][1] = Fx(2f64);
    mx3.m[1][2] = Fx(7f64);
    mx3.m[2][0] = Fx(0f64);
    mx3.m[2][1] = Fx(6f64);
    mx3.m[2][2] = Fx(-3f64);

    println!("{:?}", mx3);
    let mx2 = Matrix3::submatrix(mx3, 2, 2);
    println!("+================");
    println!("{:?}", mx2);

    let mx4 = Matrix4::new(Some([
        [Fx(-6f64), Fx(1f64), Fx(1f64), Fx(6f64)],
        [Fx(-8f64), Fx(5f64), Fx(8f64), Fx(6f64)],
        [Fx(-1f64), Fx(0f64), Fx(8f64), Fx(2f64)],
        [Fx(-7f64), Fx(1f64), Fx(-1f64), Fx(1f64)],
    ]));
    let mx3_new = mx4.submatrix(2, 1);
    println!("{:?}", mx3_new);

    let mut mx3_1: Matrix3<Fx> = Matrix3::new();
    mx3_1.m[0][0] = Fx(3f64);
    mx3_1.m[0][1] = Fx(5f64);
    mx3_1.m[0][2] = Fx(0f64);
    mx3_1.m[1][0] = Fx(2f64);
    mx3_1.m[1][1] = Fx(-1f64);
    mx3_1.m[1][2] = Fx(-7f64);
    mx3_1.m[2][0] = Fx(6f64);
    mx3_1.m[2][1] = Fx(-1f64);
    mx3_1.m[2][2] = Fx(5f64);

    println!("+================");
    println!("+================");
    println!("{:?}", mx3_1);
    assert_eq!(mx3_1.minor(1, 0), Fx(25f64));

    println!("+================");
    println!("+================");
    println!("+================");
    assert_eq!(mx3_1.minor(0, 0), mx3_1.cofactor(0, 0));
    println!("minor: {:?}\ncofactor: {:?}", mx3_1.minor(0, 0), mx3_1.cofactor(0, 0));
    assert_ne!(mx3_1.minor(1, 0), mx3_1.cofactor(1, 0));
    println!("minor: {:?}\ncofactor: {:?}", mx3_1.minor(1, 0), mx3_1.cofactor(1, 0));
}

#[test]
fn test_matrix_determinant() {
    let mut mx3: Matrix3<Fx> = Matrix3::new();
    mx3.m[0][0] = Fx(1f64);
    mx3.m[0][1] = Fx(2f64);
    mx3.m[0][2] = Fx(6f64);
    mx3.m[1][0] = Fx(-5f64);
    mx3.m[1][1] = Fx(8f64);
    mx3.m[1][2] = Fx(-4f64);
    mx3.m[2][0] = Fx(2f64);
    mx3.m[2][1] = Fx(6f64);
    mx3.m[2][2] = Fx(4f64);

    let mx4 = Matrix4::new(Some([
        [Fx(-2f64), Fx(-8f64), Fx(3f64), Fx(5f64)],
        [Fx(-3f64), Fx(1f64), Fx(7f64), Fx(3f64)],
        [Fx(1f64), Fx(2f64), Fx(-9f64), Fx(6f64)],
        [Fx(-6f64), Fx(7f64), Fx(7f64), Fx(-9f64)],
    ]));

    assert_eq!(mx3.determinant(), Fx(-196f64));

    println!("+================");
    println!("{:?}", mx4.cofactor(0, 0));
    println!("{:?}", mx4.cofactor(0, 1));
    println!("{:?}", mx4.cofactor(0, 2));
    println!("{:?}", mx4.cofactor(0, 3));
    assert_eq!(mx4.determinant(), Fx(-4071f64))
}

#[test]
fn test_matrix_inversion() {
    let m1 = Matrix4::new(Some([
        [Fx(6f64), Fx(4f64), Fx(4f64), Fx(4f64)],
        [Fx(5f64), Fx(5f64), Fx(7f64), Fx(6f64)],
        [Fx(4f64), Fx(-9f64), Fx(3f64), Fx(-7f64)],
        [Fx(9f64), Fx(1f64), Fx(7f64), Fx(-6f64)],
    ]));

    let m2 = Matrix4::new(Some([
        [Fx(-4f64), Fx(2f64), Fx(-2f64), Fx(-3f64)],
        [Fx(9f64), Fx(6f64), Fx(2f64), Fx(6f64)],
        [Fx(0f64), Fx(-5f64), Fx(1f64), Fx(-5f64)],
        [Fx(0f64), Fx(0f64), Fx(0f64), Fx(0f64)],
    ]));

    assert!(m1.determinant().eq_exact(Fx(-2120f64)));
    assert!(m2.determinant().eq_exact(Fx(0f64)));
    assert!(!m2.invertible());

    let m3 = Matrix4::new(Some([
        [Fx(8f64), Fx(-5f64), Fx(9f64), Fx(2f64)],
        [Fx(7f64), Fx(5f64), Fx(6f64), Fx(1f64)],
        [Fx(-6f64), Fx(0f64), Fx(9f64), Fx(6f64)],
        [Fx(-3f64), Fx(0f64), Fx(-9f64), Fx(-4f64)],
    ]));

    let m4 = Matrix4::new(Some([
        [Fx(9f64), Fx(3f64), Fx(0f64), Fx(9f64)],
        [Fx(-5f64), Fx(-2f64), Fx(-6f64), Fx(-3f64)],
        [Fx(-4f64), Fx(9f64), Fx(6f64), Fx(4f64)],
        [Fx(-7f64), Fx(6f64), Fx(6f64), Fx(2f64)],
    ]));

    println!("inv(m3) =\n{:?}", m3.inverse());
    println!("inv(m4) =\n{:?}", m4.inverse());

    let ma = Matrix4::new(Some([
        [Fx(3f64), Fx(-9f64), Fx(7f64), Fx(3f64)],
        [Fx(3f64), Fx(-8f64), Fx(2f64), Fx(-9f64)],
        [Fx(-4f64), Fx(4f64), Fx(4f64), Fx(1f64)],
        [Fx(-6f64), Fx(5f64), Fx(1f64), Fx(1f64)],
    ]));

    let mb = Matrix4::new(Some([
        [Fx(8f64), Fx(2f64), Fx(2f64), Fx(2f64)],
        [Fx(3f64), Fx(-1f64), Fx(7f64), Fx(0f64)],
        [Fx(7f64), Fx(0f64), Fx(5f64), Fx(4f64)],
        [Fx(6f64), Fx(-2f64), Fx(0f64), Fx(5f64)],
    ]));

    let mc = ma.mul(mb);

    assert_eq!(mc.mul(mb.inverse()), ma);
}

#[test]
// Test the different matrix transformations and chaining of transformations
fn test_matrix_transformations() {
    // Translations
    let mut m = Matrix4::identity();
    let p = Point3::new(Fx(-3.0), Fx(4.0), Fx(5.0));
    let pt = p.mul_matrix(m.translate(Fx(5.0), Fx(-3.0), Fx(2.0)));
    assert_eq!(pt, Point3::new(Fx(2.0), Fx(1.0), Fx(7.0)));

    let p = Point3::new(Fx(-3.0), Fx(4.0), Fx(5.0));
    let pt = p.mul_matrix(Matrix4::identity().translate(Fx(5.0), Fx(-3.0), Fx(2.0)).inverse());
    assert_eq!(pt, Point3::new(Fx(-8.0), Fx(7.0), Fx(3.0)));

    let v = Vector3::new(Fx(-3.0), Fx(4.0), Fx(5.0));
    assert_eq!(v, v.mul_matrix(Matrix4::identity().translate(Fx(5.0), Fx(-3.0), Fx(2.0))));

    // Scaling
    let mut m = Matrix4::identity();
    let p = Point3::new(Fx(-4.0), Fx(6.0), Fx(8.0));
    let pt = p.mul_matrix(m.scale(Fx(2.0), Fx(3.0), Fx(4.0)));
    assert_eq!(pt, Point3::new(Fx(-8.0), Fx(18.0), Fx(32.0)));

    let mut m = Matrix4::identity();
    let v = Vector3::new(Fx(-4.0), Fx(6.0), Fx(8.0));
    let vt = v.mul_matrix(m.scale(Fx(2.0), Fx(3.0), Fx(4.0)));
    assert_eq!(vt, Vector3::new(Fx(-8.0), Fx(18.0), Fx(32.0)));

    let mut m = Matrix4::identity();
    let v = Vector3::new(Fx(-4.0), Fx(6.0), Fx(8.0));
    let vt = v.mul_matrix(m.scale(Fx(2.0), Fx(3.0), Fx(4.0)).inverse());
    assert_eq!(vt, Vector3::new(Fx(-2.0), Fx(2.0), Fx(2.0)));

    // Test the reflection by scaling with a negative axis
    let mut m = Matrix4::identity();
    let p = Point3::new(Fx(2.0), Fx(3.0), Fx(4.0));
    let pt = p.mul_matrix(m.scale(Fx(-1.0), Fx(1.0), Fx(1.0)));
    assert_eq!(pt, Point3::new(Fx(-2.0), Fx(3.0), Fx(4.0)));

    // Rotation

    // Rotate around x
    let p = Point3::up();
    let mut m = Matrix4::identity();
    let hq = p.mul_matrix(m.rotate_x(Fx(PI / 4.0)));
    let mut m = Matrix4::identity();
    let fq = p.mul_matrix(m.rotate_x(Fx(PI / 2.0)));
    assert_eq!(hq, Point3::new(Fx(0.0), Fx(2f64.sqrt() / 2.0), Fx(2f64.sqrt() / 2.0)));
    assert_eq!(fq, Point3::forward());

    // Rotate around y
    let p = Point3::forward();
    let mut m = Matrix4::identity();
    let hq = p.mul_matrix(m.rotate_y(Fx(PI / 4.0)));
    let mut m = Matrix4::identity();
    let fq = p.mul_matrix(m.rotate_y(Fx(PI / 2.0)));
    assert_eq!(hq, Point3::new(Fx(2f64.sqrt() / 2.0), Fx(0.0), Fx(2f64.sqrt() / 2.0)));
    assert_eq!(fq, Point3::right());

    // Rotate around z
    let p = Point3::up();
    let mut m = Matrix4::identity();
    let hq = p.mul_matrix(m.rotate_z(Fx(PI / 4.0)));
    let mut m = Matrix4::identity();
    let fq = p.mul_matrix(m.rotate_z(Fx(PI / 2.0)));
    assert_eq!(hq, Point3::new(Fx(-(2f64.sqrt()) / 2.0), Fx(2f64.sqrt() / 2.0), Fx(0.0)));
    assert_eq!(fq, Point3::left());

    // Shearing
    let p = Point3::new(Fx(2.0), Fx(3.0), Fx(4.0));

    let mut m = Matrix4::identity();
    let pt = p.mul_matrix(m.shear(Fx(1.0), Fx(0.0), Fx(0.0), Fx(0.0), Fx(0.0), Fx(0.0)));
    assert_eq!(pt, Point3::new(Fx(5.0), Fx(3.0), Fx(4.0)));

    let mut m = Matrix4::identity();
    let pt = p.mul_matrix(m.shear(Fx(0.0), Fx(0.0), Fx(1.0), Fx(0.0), Fx(0.0), Fx(0.0)));
    assert_eq!(pt, Point3::new(Fx(2.0), Fx(5.0), Fx(4.0)));

    let mut m = Matrix4::identity();
    let pt = p.mul_matrix(m.shear(Fx(0.0), Fx(0.0), Fx(0.0), Fx(1.0), Fx(0.0), Fx(0.0)));
    assert_eq!(pt, Point3::new(Fx(2.0), Fx(7.0), Fx(4.0)));

    let mut m = Matrix4::identity();
    let pt = p.mul_matrix(m.shear(Fx(0.0), Fx(0.0), Fx(0.0), Fx(0.0), Fx(1.0), Fx(0.0)));
    assert_eq!(pt, Point3::new(Fx(2.0), Fx(3.0), Fx(6.0)));

    let mut m = Matrix4::identity();
    let pt = p.mul_matrix(m.shear(Fx(0.0), Fx(0.0), Fx(0.0), Fx(0.0), Fx(0.0), Fx(1.0)));
    assert_eq!(pt, Point3::new(Fx(2.0), Fx(3.0), Fx(7.0)));

    // Chaining transformations
    let mut p = Point3::new(Fx(1.0), Fx(0.0), Fx(1.0));
    let mut m = Matrix4::identity();

    p = p.mul_matrix(m.rotate_x(Fx(PI / 2.0)));
    println!("{:?}", p);

    let mut m = Matrix4::identity();
    p = p.mul_matrix(m.scale(Fx(5.0), Fx(5.0), Fx(5.0)));
    println!("{:?}", p);

    let mut m = Matrix4::identity();
    p = p.mul_matrix(m.translate(Fx(10.0), Fx(5.0), Fx(7.0)));
    println!("{:?}", p);

    let p1 = Point3::new(Fx(1.0), Fx(0.0), Fx(1.0));
    let mut m = Matrix4::identity();
    let p1 = p1.mul_matrix(
        m.rotate_x(Fx(PI / 2.0)).scale(Fx(5.0), Fx(5.0), Fx(5.0)).translate(
            Fx(10.),
            Fx(5.0),
            Fx(7.0),
        ),
    );
    println!("{:?}", p1);

    assert_eq!(p1, Point3::new(Fx(15.0), Fx(0.0), Fx(7.0)));
}

#[test]
// This test validates the construction of the Vector3 and Point3 types
fn tests_vector_and_point_construction_integrity() {
    let v_one: Vector3<Fx> = Vector3::one();
    let v_zero: Vector3<Fx> = Vector3::zero();
    let v_back: Vector3<Fx> = Vector3::back();
    let v_down: Vector3<Fx> = Vector3::down();
    let v_forward: Vector3<Fx> = Vector3::forward();
    let v_left: Vector3<Fx> = Vector3::left();
    let v_right: Vector3<Fx> = Vector3::right();
    let v_up: Vector3<Fx> = Vector3::up();
    assert_eq!(Vector3 { x: Fx(1.0), y: Fx(1.0), z: Fx(1.0), w: Fx(0.0) }, v_one);
    assert_eq!(Vector3 { x: Fx(0.0), y: Fx(0.0), z: Fx(0.0), w: Fx(0.0) }, v_zero);
    assert_eq!(Vector3 { x: Fx(0.0), y: Fx(0.0), z: Fx(-1.0), w: Fx(0.0) }, v_back);
    assert_eq!(Vector3 { x: Fx(0.0), y: Fx(-1.0), z: Fx(0.0), w: Fx(0.0) }, v_down);
    assert_eq!(Vector3 { x: Fx(0.0), y: Fx(0.0), z: Fx(1.0), w: Fx(0.0) }, v_forward);
    assert_eq!(Vector3 { x: Fx(-1.0), y: Fx(0.0), z: Fx(0.0), w: Fx(0.0) }, v_left);
    assert_eq!(Vector3 { x: Fx(1.0), y: Fx(0.0), z: Fx(0.0), w: Fx(0.0) }, v_right);
    assert_eq!(Vector3 { x: Fx(0.0), y: Fx(1.0), z: Fx(0.0), w: Fx(0.0) }, v_up);
    let p_one: Point3<Fx> = Point3::one();
    let p_zero: Point3<Fx> = Point3::zero();
    let p_back: Point3<Fx> = Point3::back();
    let p_down: Point3<Fx> = Point3::down();
    let p_forward: Point3<Fx> = Point3::forward();
    let p_left: Point3<Fx> = Point3::left();
    let p_right: Point3<Fx> = Point3::right();
    let p_up: Point3<Fx> = Point3::up();
    assert_eq!(Point3 { x: Fx(1.0), y: Fx(1.0), z: Fx(1.0), w: Fx(1.0) }, p_one);
    assert_eq!(Point3 { x: Fx(0.0), y: Fx(0.0), z: Fx(0.0), w: Fx(1.0) }, p_zero);
    assert_eq!(Point3 { x: Fx(0.0), y: Fx(0.0), z: Fx(-1.0), w: Fx(1.0) }, p_back);
    assert_eq!(Point3 { x: Fx(0.0), y: Fx(-1.0), z: Fx(0.0), w: Fx(1.0) }, p_down);
    assert_eq!(Point3 { x: Fx(0.0), y: Fx(0.0), z: Fx(1.0), w: Fx(1.0) }, p_forward);
    assert_eq!(Point3 { x: Fx(-1.0), y: Fx(0.0), z: Fx(0.0), w: Fx(1.0) }, p_left);
    assert_eq!(Point3 { x: Fx(1.0), y: Fx(0.0), z: Fx(0.0), w: Fx(1.0) }, p_right);
    assert_eq!(Point3 { x: Fx(0.0), y: Fx(1.0), z: Fx(0.0), w: Fx(1.0) }, p_up);
}

#[test]
// This test validates the operation overloading Add, Sub, Div, Equality, Mul, Neg for the
// Vector3 and Point3
fn tests_vector_and_point_operator_overloading_integrity() {
    let v1 = Vector3::new(Fx(2.0), Fx(3.5), Fx(4.0));
    let v2 = Vector3::new(Fx(3.0), Fx(7.5), Fx(8.0));
    let v3 = Vector3::new(Fx(2.55555), Fx(7.88888), Fx(9.34343));
    let v4 = Vector3::new(Fx(2.55553), Fx(7.88887), Fx(9.34342));
    let p1 = Point3::new(Fx(2.5), Fx(3.5), Fx(4.5));
    let p2 = Point3::new(Fx(3.0), Fx(7.0), Fx(8.0));
    let p3 = Point3::new(Fx(2.55555), Fx(7.88888), Fx(9.34343));
    let p4 = Point3::new(Fx(2.55553), Fx(7.88887), Fx(9.34342));
    // Add two Vector3
    assert_eq!(v1.add(v2), Vector3 { x: Fx(5.0), y: Fx(11.0), z: Fx(12.0), w: Fx(0.0) });
    // Subs two Vector3
    assert_eq!(v1.sub(v2), Vector3 { x: Fx(-1.0), y: Fx(-4.0), z: Fx(-4.0), w: Fx(0.0) });
    // Mul Vector3 by scalar
    assert_eq!(v1.mul(Fx(3.0)), Vector3 { x: Fx(6.0), y: Fx(10.5), z: Fx(12.0), w: Fx(0.0) });
    // Validate Equality
    assert!(v3.equal(&v4));
    // Div Vector3 by scalar
    assert!(Vector3::new(Fx(1.50), Fx(3.75), Fx(4.0)).equal(&v2.div(Fx(2.0))));
    // Neg Vector3
    assert_eq!(v1.neg(), Vector3::new(Fx(-2.0), Fx(-3.5), Fx(-4.0)));
    // Sub two Point3
    assert_eq!(p1.sub(p2), Vector3::new(Fx(-0.5), Fx(-3.5), Fx(-3.5)));
    // Div Point3 by scalar
    assert!(Point3::new(Fx(1.25), Fx(1.75), Fx(2.25)).equal(&p1.div(Fx(2.0))));
    // Mul Point3 by scalar
    assert!(p3.equal(&Point3::new(Fx(2.55553), Fx(7.88887), Fx(9.34342))));
    // Neg Point3
    assert_eq!(p1.neg(), Point3::new(Fx(-2.5), Fx(-3.5), Fx(-4.5)));
    // Adding and subtracting back gives the zero vector
    let mut vx: Vector3<Fx> = Vector3::zero();
    vx = vx.add(v1);
    vx = vx.sub(v1);
    assert!(vx.equal(&Vector3::zero()));
    // Test chain operators
    println!("{:?}", v1.add(v4).sub(v1).sub(v3).add(v2.sub(v4).div(Fx(1.522445523))));
    println!("{:?}", v3.add_point(p4).add_vector(v1));
    println!("{:?}", p1.sub(p2.div(Fx(3.7626374))));
    println!("{:?}", p2.sub_vector(v1));
    println!("{:?}", v2.add(v1));
}

#[test]
// This test validates the implementation of the common vector operations
fn vector_common_operations_integrity() {
    // Magnitude
    let v1 = Vector3::new(Fx(1.0), Fx(2.0), Fx(3.0));
    assert_eq!(v1.magnitude(), Fx(14f64.sqrt()));
    // Normalization
    let mut v2 = v1;
    assert_eq!(v2.normalized().magnitude(), Fx(1f64));
    // Dot product
    let a = Vector3::new(Fx(1.0), Fx(2.0), Fx(3.0));
    let b = Vector3::new(Fx(2.0), Fx(3.0), Fx(4.0));
    assert_eq!(Vector3::dot(a, b), Fx(20f64));
    // Cross product
    assert_eq!(Vector3::cross(a, b), Vector3::new(Fx(-1.0), Fx(2.0), Fx(-1.0)));
    assert_eq!(Vector3::cross(b, a), Vector3::new(Fx(1.0), Fx(-2.0), Fx(1.0)));
    // Min, Max Components
    assert_eq!(a.min_component(), (0, 'x', Fx(1.0)));
    assert_eq!(a.max_component(), (2, 'z', Fx(3.0)));
    assert_eq!(b.min_component(), (0, 'x', Fx(2.0)));
}

/// A projectile for the launch simulation.
#[derive(Debug)]
struct Projectile {
    position: Point3<Fx>,
    velocity: Vector3<Fx>,
}

/// The forces acting on the projectile.
struct Environment {
    gravity: Vector3<Fx>,
    wind: Vector3<Fx>,
}

/// One step of the simulation.
fn tick<'a, 'b>(env: &'a Environment, proj: &'b mut Projectile) -> &'b mut Projectile {
    proj.position = proj.position.add_vector(proj.velocity);
    proj.velocity = proj.velocity.add(env.gravity).add(env.wind);
    proj
}

#[test]
// This test validates integrity by simulating a rocket launch
fn simulate_rocket_lauch() {
    let mut start = Vector3::new(Fx(1.0), Fx(1.0), Fx(0.0));
    let mut proj = Projectile { position: Point3::up(), velocity: start.normalized() };

    let env = Environment {
        gravity: Vector3::down().div(Fx(10f64)),
        wind: Vector3::left().div(Fx(100f64)),
    };

    println!(
        "Launch position: - x: {:^5.2}, y: {:^5.2}, z: {:^5.2}",
        proj.position.x.0, proj.position.y.0, proj.position.z.0
    );
    while proj.position.y.0 > 0.0 {
        tick(&env, &mut proj);
        if proj.position.y.0 <= 0.0 {
            break;
        }
        println!(
            "Projectile position - x: {:^5.2}, y: {:^5.2}, z: {:^5.2}",
            proj.position.x.0, proj.position.y.0, proj.position.z.0
        );
    }
    println!("========================== End");
}

#[test]
// This test validates the construction of the Vector3 and Point3 types
fn it_vector_and_point_construction_integrity() {
    let v_one: Vector3<Fx> = Vector3::one();
    let v_zero: Vector3<Fx> = Vector3::zero();
    let v_back: Vector3<Fx> = Vector3::back();
    let v_down: Vector3<Fx> = Vector3::down();
    let v_forward: Vector3<Fx> = Vector3::forward();
    let v_left: Vector3<Fx> = Vector3::left();
    let v_right: Vector3<Fx> = Vector3::right();
    let v_up: Vector3<Fx> = Vector3::up();
    assert_eq!(Vector3 { x: Fx(1.0), y: Fx(1.0), z: Fx(1.0), w: Fx(0.0) }, v_one);
    assert_eq!(Vector3 { x: Fx(0.0), y: Fx(0.0), z: Fx(0.0), w: Fx(0.0) }, v_zero);
    assert_eq!(Vector3 { x: Fx(0.0), y: Fx(0.0), z: Fx(-1.0), w: Fx(0.0) }, v_back);
    assert_eq!(Vector3 { x: Fx(0.0), y: Fx(-1.0), z: Fx(0.0), w: Fx(0.0) }, v_down);
    assert_eq!(Vector3 { x: Fx(0.0), y: Fx(0.0), z: Fx(1.0), w: Fx(0.0) }, v_forward);
    assert_eq!(Vector3 { x: Fx(-1.0), y: Fx(0.0), z: Fx(0.0), w: Fx(0.0) }, v_left);
    assert_eq!(Vector3 { x: Fx(1.0), y: Fx(0.0), z: Fx(0.0), w: Fx(0.0) }, v_right);
    assert_eq!(Vector3 { x: Fx(0.0), y: Fx(1.0), z: Fx(0.0), w: Fx(0.0) }, v_up);
    let p_one: Point3<Fx> = Point3::one();
    let p_zero: Point3<Fx> = Point3::zero();
    let p_back: Point3<Fx> = Point3::back();
    let p_down: Point3<Fx> = Point3::down();
    let p_forward: Point3<Fx> = Point3::forward();
    let p_left: Point3<Fx> = Point3::left();
    let p_right: Point3<Fx> = Point3::right();
    let p_up: Point3<Fx> = Point3::up();
    assert_eq!(Point3 { x: Fx(1.0), y: Fx(1.0), z: Fx(1.0), w: Fx(1.0) }, p_one);
    assert_eq!(Point3 { x: Fx(0.0), y: Fx(0.0), z: Fx(0.0), w: Fx(1.0) }, p_zero);
    assert_eq!(Point3 { x: Fx(0.0), y: Fx(0.0), z: Fx(-1.0), w: Fx(1.0) }, p_back);
    assert_eq!(Point3 { x: Fx(0.0), y: Fx(-1.0), z: Fx(0.0), w: Fx(1.0) }, p_down);
    assert_eq!(Point3 { x: Fx(0.0), y: Fx(0.0), z: Fx(1.0), w: Fx(1.0) }, p_forward);
    assert_eq!(Point3 { x: Fx(-1.0), y: Fx(0.0), z: Fx(0.0), w: Fx(1.0) }, p_left);
    assert_eq!(Point3 { x: Fx(1.0), y: Fx(0.0), z: Fx(0.0), w: Fx(1.0) }, p_right);
    assert_eq!(Point3 { x: Fx(0.0), y: Fx(1.0), z: Fx(0.0), w: Fx(1.0) }, p_up);
}

#[test]
// This test validates the operation overloading Add, Sub, Div and Mul for the Vector3 and Point3
// types
fn it_vector_and_point_operator_overloading_integrity() {
    let v1 = Vector3::new(Fx(2.0), Fx(3.5), Fx(4.0));
    let v2 = Vector3::new(Fx(3.0), Fx(7.5), Fx(8.0));
    let v3 = Vector3::new(Fx(2.55555), Fx(7.88888), Fx(9.34343));
    let v4 = Vector3::new(Fx(2.55553), Fx(7.88887), Fx(9.34342));
    assert_eq!(v1.add(v2), Vector3 { x: Fx(5.0), y: Fx(11.0), z: Fx(12.0), w: Fx(0.0) });
    assert_eq!(v1.sub(v2), Vector3 { x: Fx(-1.0), y: Fx(-4.0), z: Fx(-4.0), w: Fx(0.0) });
    assert_eq!(v1.mul(Fx(3.0)), Vector3 { x: Fx(6.0), y: Fx(10.5), z: Fx(12.0), w: Fx(0.0) });
    assert!(v1.equal(&v1.mul(Fx(2.0)).div(Fx(2.0))));
    assert!(v3.equal(&v4));

    let p1 = Point3::new(Fx(2.5), Fx(3.5), Fx(4.5));
    let p2 = Point3::new(Fx(3.0), Fx(7.0), Fx(8.0));
    assert_eq!(p1.sub(p2), Vector3::new(Fx(-0.5), Fx(-3.5), Fx(-3.5)));
}

#[test]
// Intersects at two points
fn ut_sphere_ray_intersect_2p() {
    let r = Ray::new(Point3::new(Fx(0.0), Fx(0.0), Fx(-5.0)), Vector3::new(Fx(0.0), Fx(0.0), Fx(1.0)));
    let s: Sphere<Fx> = Sphere::new(1);
    let xs = Sphere::intersect(s, r);
    assert_eq!(xs.len(), 2);
    assert_eq!(xs[0].t, Fx(4.0));
    assert_eq!(xs[1].t, Fx(6.0));
}

#[test]
// Intersects at a tangent
fn ut_sphere_ray_intersect_tangent() {
    let r = Ray::new(Point3::new(Fx(0.0), Fx(1.0), Fx(-5.0)), Vector3::z_coord(Fx(1.0)));
    let s: Sphere<Fx> = Sphere::new(2);
    let xs = Sphere::intersect(s, r);
    assert_eq!(xs.len(), 2);
    assert_eq!(xs[0].t, Fx(5.0));
    assert_eq!(xs[1].t, Fx(5.0));
}

#[test]
// Ray misses a sphere.
fn ut_sphere_misses_ray() {
    let r = Ray::new(Point3::new(Fx(0.0), Fx(2.0), Fx(-5.0)), Vector3::z_coord(Fx(1.0)));
    let s: Sphere<Fx> = Sphere::new(3);
    let xs = Sphere::intersect(s, r);
    assert_eq!(xs.len(), 0);
}

#[test]
// Ray originates inside sphere.
fn ut_sphere_ray_inside_sphere() {
    let r = Ray::new(Point3::zero(), Vector3::z_coord(Fx(1.0)));
    let s: Sphere<Fx> = Sphere::new(4);
    let xs = Sphere::intersect(s, r);
    assert_eq!(xs.len(), 2);
    assert_eq!(xs[0].t, Fx(-1.0));
    assert_eq!(xs[1].t, Fx(1.0));
}

#[test]
// Ray originates behind sphere.
fn ut_sphere_ray_behind_sphere() {
    let r = Ray::new(Point3::z_coord(Fx(5.0)), Vector3::z_coord(Fx(1.0)));
    let s: Sphere<Fx> = Sphere::new(5);
    let xs = Sphere::intersect(s, r);
    assert_eq!(xs.len(), 2);
    assert_eq!(xs[0].t, Fx(-6.0));
    assert_eq!(xs[1].t, Fx(-4.0));
}

#[test]
// Intersect sets object
fn ut_sphere_instersect_object() {
    let r = Ray::new(Point3::z_coord(Fx(-5.0)), Vector3::z_coord(Fx(1.0)));
    let s: Sphere<Fx> = Sphere::new(5);
    let xs = Sphere::intersect(s, r);
    assert_eq!(xs.len(), 2);
    assert_eq!(xs[0].object.get_name(), s.get_name());
    assert_eq!(xs[1].object.get_id(), s.get_id());
}

#[test]
// Sphere default transformation.
fn ut_sphere_default_transform() {
    let s: Sphere<Fx> = Sphere::new(1);
    assert_eq!(s.transform, Matrix4::identity());
}

#[test]
// Scaled sphere intersecting with a Ray
fn ut_sphere_intersect_scaled() {
    let r = Ray::new(Point3::new(Fx(0.0), Fx(0.0), Fx(-5.0)), Vector3::new(Fx(0.0), Fx(0.0), Fx(1.0)));
    let mut s: Sphere<Fx> = Sphere::new(1);
    s.set_transform(Matrix4::identity().scale(Fx(2.0), Fx(2.0), Fx(2.0)));
    let xs = Sphere::intersect(s, r);
    assert_eq!(xs.len(), 2);
    assert_eq!(xs[0].t, Fx(3.0));
    assert_eq!(xs[1].t, Fx(7.0));
}

#[test]
// Scaled sphere intersecting with a Ray, with whole-number coordinates
fn ut_sphere_intersect_scaled_int() {
    let r = Ray::new(Point3::new(Fx(0.0), Fx(0.0), Fx(-5.0)), Vector3::new(Fx(0.0), Fx(0.0), Fx(1.0)));
    let mut s: Sphere<Fx> = Sphere::new(1);
    s.set_transform(Matrix4::identity().scale(Fx(2.0), Fx(2.0), Fx(2.0)));
    let xs = Sphere::intersect(s, r);
    assert_eq!(xs.len(), 2);
    assert_eq!(xs[0].t, Fx(3.0));
    assert_eq!(xs[1].t, Fx(7.0));
}

#[test]
// Translated sphere intersecting with a Ray
fn ut_sphere_intersect_translated() {
    let r = Ray::new(Point3::z_coord(Fx(-5.0)), Vector3::forward());
    let mut s: Sphere<Fx> = Sphere::new(1);
    s.set_transform(Matrix4::identity().translate(Fx(5.0), Fx(0.0), Fx(0.0)));
    let xs = Sphere::intersect(s, r);
    assert_eq!(xs.len(), 0);
}

#[test]
// hit on the intersections a sphere actually produced
fn hit_of_sphere_intersections() {
    let r = Ray::new(Point3::new(Fx(0.0), Fx(0.0), Fx(-5.0)), Vector3::new(Fx(0.0), Fx(0.0), Fx(1.0)));
    let s: Sphere<Fx> = Sphere::new(1);
    let xs = Sphere::intersect(s, r);
    let i = hit(xs);
    assert_eq!(i.map(|ixn| ixn.t), Some(Fx(4.0)));
}

#[test]
// epsilon equality tolerates sub-epsilon perturbation and no more
fn epsilon_equality_is_tolerant() {
    let v = Vector3::new(Fx(1.0), Fx(2.0), Fx(3.0));
    let close = Vector3::new(Fx(1.00005), Fx(2.0), Fx(3.0));
    let far = Vector3::new(Fx(1.0002), Fx(2.0), Fx(3.0));
    assert!(v.equal(&v));
    assert!(v.equal(&close));
    assert!(!v.equal(&far));

    let m: Matrix4<Fx> = Matrix4::identity();
    let mut n = m;
    n.m[2][2] = Fx(1.00005);
    assert!(m.equal(&m));
    assert!(m.equal(&n));
    n.m[2][2] = Fx(1.0002);
    assert!(!m.equal(&n));
}

#[test]
// an invertible matrix times its inverse takes every tuple back
fn inverse_round_trip_on_tuples() {
    let m = Matrix4::new(Some([
        [Fx(3.0), Fx(-9.0), Fx(7.0), Fx(3.0)],
        [Fx(3.0), Fx(-8.0), Fx(2.0), Fx(-9.0)],
        [Fx(-4.0), Fx(4.0), Fx(4.0), Fx(1.0)],
        [Fx(-6.0), Fx(5.0), Fx(1.0), Fx(1.0)],
    ]));
    assert!(m.invertible());
    let round = m.mul(m.inverse());
    let p = Point3::new(Fx(1.5), Fx(-2.0), Fx(4.0));
    let v = Vector3::new(Fx(-3.0), Fx(0.5), Fx(8.0));
    assert_eq!(round.mul_point(p), p);
    assert_eq!(round.mul_vector(v), v);
    assert_eq!(round, Matrix4::identity());
}

#[test]
// the standalone sphere intersects like the scene sphere
fn primitive_sphere_intersection() {
    let s: PrimitiveSphere<Fx> = PrimitiveSphere::new_unit();
    let r = Ray::new(Point3::new(Fx(0.0), Fx(0.0), Fx(-5.0)), Vector3::new(Fx(0.0), Fx(0.0), Fx(1.0)));
    assert_eq!(s.intersect(r), Some((Fx(4.0), Fx(6.0))));
    let tangent = Ray::new(Point3::new(Fx(0.0), Fx(1.0), Fx(-5.0)), Vector3::z_coord(Fx(1.0)));
    assert_eq!(s.intersect(tangent), Some((Fx(5.0), Fx(5.0))));
    let miss = Ray::new(Point3::new(Fx(0.0), Fx(2.0), Fx(-5.0)), Vector3::z_coord(Fx(1.0)));
    assert_eq!(s.intersect(miss), None);
    let general = PrimitiveSphere::new(Point3::new(Fx(5.0), Fx(0.0), Fx(0.0)), Fx(1.0));
    assert_eq!(general.intersect(r), None);
}

#[test]
// the position along a ray, including behind the origin
fn ut_ray_position() {
    let ray = Ray::new(Point3::new(Fx(2.0), Fx(3.0), Fx(4.0)), Vector3::right());
    assert_eq!(Ray::position(ray, Fx(0.0)), Point3::new(Fx(2.0), Fx(3.0), Fx(4.0)));
    assert_eq!(Ray::position(ray, Fx(1.0)), Point3::new(Fx(3.0), Fx(3.0), Fx(4.0)));
    assert_eq!(Ray::position(ray, Fx(-1.0)), Point3::new(Fx(1.0), Fx(3.0), Fx(4.0)));
    assert_eq!(Ray::position(ray, Fx(2.5)), Point3::new(Fx(4.5), Fx(3.0), Fx(4.0)));
}
