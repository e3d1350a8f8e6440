//! Homogeneous 3D tuples: free vectors (`w = 0`) and affine points
//! (`w = 1`), with their arithmetic.
//!
//! Every operation returns a new value and carries an exact contract over
//! the scalar's specification functions.  The weight component is computed
//! like any other component, and each operation additionally states the
//! closure rule it obeys: vector plus vector stays a vector, point plus
//! vector stays a point, point minus point is a vector, and so on.

use vstd::prelude::*;

use crate::scalar::Scalar;

verus! {

/// A geometric 3D vector in homogeneous form; `w` is the weight and is
/// zero for a well-formed free vector.
#[derive(Clone, Copy, Debug)]
pub struct Vector3<P> {
    /// Component on the X axis.
    pub x: P,
    /// Component on the Y axis.
    pub y: P,
    /// Component on the Z axis.
    pub z: P,
    /// Component representing the weight.
    pub w: P,
}

/// A geometric 3D point in homogeneous form; `w` is the weight and is
/// one for a well-formed affine point.
#[derive(Clone, Copy, Debug)]
pub struct Point3<P> {
    /// Component on the X axis.
    pub x: P,
    /// Component on the Y axis.
    pub y: P,
    /// Component on the Z axis.
    pub z: P,
    /// Component representing the weight.
    pub w: P,
}

/// The dot product of two vectors, over the x, y and z components only,
/// summed left to right.
pub open spec fn dot_s<P: Scalar>(a: Vector3<P>, b: Vector3<P>) -> P {
    P::add_s(P::add_s(P::mul_s(a.x, b.x), P::mul_s(a.y, b.y)), P::mul_s(a.z, b.z))
}

/// Component-wise approximate equality of two vectors.
pub open spec fn vector_almost_eq_s<P: Scalar>(a: Vector3<P>, b: Vector3<P>) -> bool {
    &&& P::almost_eq_s(a.x, b.x)
    &&& P::almost_eq_s(a.y, b.y)
    &&& P::almost_eq_s(a.z, b.z)
    &&& P::almost_eq_s(a.w, b.w)
}

/// Component-wise approximate equality of two points.
pub open spec fn point_almost_eq_s<P: Scalar>(a: Point3<P>, b: Point3<P>) -> bool {
    &&& P::almost_eq_s(a.x, b.x)
    &&& P::almost_eq_s(a.y, b.y)
    &&& P::almost_eq_s(a.z, b.z)
    &&& P::almost_eq_s(a.w, b.w)
}

/// Common construction capabilities of vectors and points.  The `*_s`
/// members expose the constructed components to contracts, and
/// `weight_s` is the weight a well-formed tuple of the implementing kind
/// carries: zero for vectors, one for points.
pub trait Tuple<P: Scalar>: Sized {
    /// The X component of a tuple.
    spec fn x_s(t: Self) -> P;

    /// The Y component of a tuple.
    spec fn y_s(t: Self) -> P;

    /// The Z component of a tuple.
    spec fn z_s(t: Self) -> P;

    /// The weight component of a tuple.
    spec fn w_s(t: Self) -> P;

    /// The weight a well-formed tuple of this kind carries.
    spec fn weight_s() -> P;

    /// A tuple with every axis set to the same value.
    fn all(all: P) -> (r: Self)
        ensures
            Self::x_s(r) == all,
            Self::y_s(r) == all,
            Self::z_s(r) == all,
            Self::w_s(r) == Self::weight_s(),
    ;

    /// A tuple with the given axis values.
    fn new(x: P, y: P, z: P) -> (r: Self)
        ensures
            Self::x_s(r) == x,
            Self::y_s(r) == y,
            Self::z_s(r) == z,
            Self::w_s(r) == Self::weight_s(),
    ;

    /// A tuple along the X axis.
    fn x_coord(x_val: P) -> (r: Self)
        ensures
            Self::x_s(r) == x_val,
            Self::y_s(r) == P::zero_s(),
            Self::z_s(r) == P::zero_s(),
            Self::w_s(r) == Self::weight_s(),
    ;

    /// A tuple along the Y axis.
    fn y_coord(y_val: P) -> (r: Self)
        ensures
            Self::x_s(r) == P::zero_s(),
            Self::y_s(r) == y_val,
            Self::z_s(r) == P::zero_s(),
            Self::w_s(r) == Self::weight_s(),
    ;

    /// A tuple along the Z axis.
    fn z_coord(z_val: P) -> (r: Self)
        ensures
            Self::x_s(r) == P::zero_s(),
            Self::y_s(r) == P::zero_s(),
            Self::z_s(r) == z_val,
            Self::w_s(r) == Self::weight_s(),
    ;
}

/// The magnitude of a tuple with the given axis components: the square
/// root of the sum of their squares.
pub open spec fn magnitude_of_s<P: Scalar>(x: P, y: P, z: P) -> P {
    P::sqrt_s(P::add_s(P::add_s(P::mul_s(x, x), P::mul_s(y, y)), P::mul_s(z, z)))
}

/// The capabilities vectors add over plain tuples: the axis units,
/// normalisation, component selection, magnitude, and the two products.
pub trait Vector<P: Scalar>: Tuple<P> {
    /// The vector with every coordinate one.
    fn one() -> (r: Self)
        ensures
            Self::x_s(r) == P::one_s(),
            Self::y_s(r) == P::one_s(),
            Self::z_s(r) == P::one_s(),
            Self::w_s(r) == Self::weight_s(),
    ;

    /// The zero vector.
    fn zero() -> (r: Self)
        ensures
            Self::x_s(r) == P::zero_s(),
            Self::y_s(r) == P::zero_s(),
            Self::z_s(r) == P::zero_s(),
            Self::w_s(r) == Self::weight_s(),
    ;

    /// The unit vector pointing backward: negative Z.
    fn back() -> (r: Self)
        ensures
            Self::x_s(r) == P::zero_s(),
            Self::y_s(r) == P::zero_s(),
            Self::z_s(r) == P::neg_s(P::one_s()),
            Self::w_s(r) == Self::weight_s(),
    ;

    /// The unit vector pointing down: negative Y.
    fn down() -> (r: Self)
        ensures
            Self::x_s(r) == P::zero_s(),
            Self::y_s(r) == P::neg_s(P::one_s()),
            Self::z_s(r) == P::zero_s(),
            Self::w_s(r) == Self::weight_s(),
    ;

    /// The unit vector pointing forward: positive Z.
    fn forward() -> (r: Self)
        ensures
            Self::x_s(r) == P::zero_s(),
            Self::y_s(r) == P::zero_s(),
            Self::z_s(r) == P::one_s(),
            Self::w_s(r) == Self::weight_s(),
    ;

    /// The unit vector pointing left: negative X.
    fn left() -> (r: Self)
        ensures
            Self::x_s(r) == P::neg_s(P::one_s()),
            Self::y_s(r) == P::zero_s(),
            Self::z_s(r) == P::zero_s(),
            Self::w_s(r) == Self::weight_s(),
    ;

    /// The unit vector pointing right: positive X.
    fn right() -> (r: Self)
        ensures
            Self::x_s(r) == P::one_s(),
            Self::y_s(r) == P::zero_s(),
            Self::z_s(r) == P::zero_s(),
            Self::w_s(r) == Self::weight_s(),
    ;

    /// The unit vector pointing up: positive Y.
    fn up() -> (r: Self)
        ensures
            Self::x_s(r) == P::zero_s(),
            Self::y_s(r) == P::one_s(),
            Self::z_s(r) == P::zero_s(),
            Self::w_s(r) == Self::weight_s(),
    ;

    /// The vector scaled to magnitude one; the receiver is left
    /// unchanged.
    fn normalized(&mut self) -> (r: Self)
        ensures
            *final(self) == *old(self),
            Self::x_s(r) == P::div_s(
                Self::x_s(*old(self)),
                magnitude_of_s(Self::x_s(*old(self)), Self::y_s(*old(self)), Self::z_s(*old(self))),
            ),
            Self::y_s(r) == P::div_s(
                Self::y_s(*old(self)),
                magnitude_of_s(Self::x_s(*old(self)), Self::y_s(*old(self)), Self::z_s(*old(self))),
            ),
            Self::z_s(r) == P::div_s(
                Self::z_s(*old(self)),
                magnitude_of_s(Self::x_s(*old(self)), Self::y_s(*old(self)), Self::z_s(*old(self))),
            ),
            Self::w_s(r) == P::div_s(
                Self::w_s(*old(self)),
                magnitude_of_s(Self::x_s(*old(self)), Self::y_s(*old(self)), Self::z_s(*old(self))),
            ),
    ;

    /// The index, axis name and value of the smallest coordinate.
    fn min_component(&self) -> (r: (i8, char, P))
        ensures
            r == (if P::ge_s(Self::y_s(*self), Self::x_s(*self)) && P::ge_s(
                Self::z_s(*self),
                Self::x_s(*self),
            ) {
                (0i8, 'x', Self::x_s(*self))
            } else if P::ge_s(Self::z_s(*self), Self::y_s(*self)) {
                (1i8, 'y', Self::y_s(*self))
            } else {
                (2i8, 'z', Self::z_s(*self))
            }),
    ;

    /// The index, axis name and value of the largest coordinate.
    fn max_component(&self) -> (r: (i8, char, P))
        ensures
            r == (if P::ge_s(Self::x_s(*self), Self::y_s(*self)) && P::ge_s(
                Self::x_s(*self),
                Self::z_s(*self),
            ) {
                (0i8, 'x', Self::x_s(*self))
            } else if P::ge_s(Self::y_s(*self), Self::z_s(*self)) {
                (1i8, 'y', Self::y_s(*self))
            } else {
                (2i8, 'z', Self::z_s(*self))
            }),
    ;

    /// The magnitude of the vector.
    fn magnitude(&self) -> (r: P)
        ensures
            r == magnitude_of_s(Self::x_s(*self), Self::y_s(*self), Self::z_s(*self)),
    ;

    /// The cross product of two vectors.
    fn cross(lhs: Vector3<P>, rhs: Vector3<P>) -> (r: Vector3<P>)
        ensures
            r.x == P::sub_s(P::mul_s(lhs.y, rhs.z), P::mul_s(lhs.z, rhs.y)),
            r.y == P::sub_s(P::mul_s(lhs.z, rhs.x), P::mul_s(lhs.x, rhs.z)),
            r.z == P::sub_s(P::mul_s(lhs.x, rhs.y), P::mul_s(lhs.y, rhs.x)),
            r.w == P::zero_s(),
    ;

    /// The dot product of two vectors.
    fn dot(lhs: Vector3<P>, rhs: Vector3<P>) -> (r: P)
        ensures
            r == dot_s(lhs, rhs),
    ;
}

/// The capability points add over plain tuples.
pub trait Point<P: Scalar>: Tuple<P> {
    /// The world origin; the receiver is left unchanged.
    fn origin(&mut self) -> (r: Self)
        ensures
            *final(self) == *old(self),
            Self::x_s(r) == P::zero_s(),
            Self::y_s(r) == P::zero_s(),
            Self::z_s(r) == P::zero_s(),
            Self::w_s(r) == P::one_s(),
    ;
}

impl<P: Scalar> Tuple<P> for Vector3<P> {
    open spec fn x_s(t: Self) -> P {
        t.x
    }

    open spec fn y_s(t: Self) -> P {
        t.y
    }

    open spec fn z_s(t: Self) -> P {
        t.z
    }

    open spec fn w_s(t: Self) -> P {
        t.w
    }

    open spec fn weight_s() -> P {
        P::zero_s()
    }

    fn all(all: P) -> Self {
        Vector3::all(all)
    }

    fn new(x: P, y: P, z: P) -> Self {
        Vector3::new(x, y, z)
    }

    fn x_coord(x_val: P) -> Self {
        Vector3::x_coord(x_val)
    }

    fn y_coord(y_val: P) -> Self {
        Vector3::y_coord(y_val)
    }

    fn z_coord(z_val: P) -> Self {
        Vector3::z_coord(z_val)
    }
}

impl<P: Scalar> Tuple<P> for Point3<P> {
    open spec fn x_s(t: Self) -> P {
        t.x
    }

    open spec fn y_s(t: Self) -> P {
        t.y
    }

    open spec fn z_s(t: Self) -> P {
        t.z
    }

    open spec fn w_s(t: Self) -> P {
        t.w
    }

    open spec fn weight_s() -> P {
        P::one_s()
    }

    fn all(all: P) -> Self {
        Point3::all(all)
    }

    fn new(x: P, y: P, z: P) -> Self {
        Point3::new(x, y, z)
    }

    fn x_coord(x_val: P) -> Self {
        Point3::x_coord(x_val)
    }

    fn y_coord(y_val: P) -> Self {
        Point3::y_coord(y_val)
    }

    fn z_coord(z_val: P) -> Self {
        Point3::z_coord(z_val)
    }
}

impl<P: Scalar> Point<P> for Point3<P> {
    fn origin(&mut self) -> Self {
        Point3::origin(self)
    }
}

impl<P: Scalar> Vector<P> for Vector3<P> {
    fn one() -> Self {
        Vector3::one()
    }

    fn zero() -> Self {
        Vector3::zero()
    }

    fn back() -> Self {
        Vector3::back()
    }

    fn down() -> Self {
        Vector3::down()
    }

    fn forward() -> Self {
        Vector3::forward()
    }

    fn left() -> Self {
        Vector3::left()
    }

    fn right() -> Self {
        Vector3::right()
    }

    fn up() -> Self {
        Vector3::up()
    }

    fn normalized(&mut self) -> Self {
        Vector3::normalized(self)
    }

    fn min_component(&self) -> (i8, char, P) {
        Vector3::min_component(self)
    }

    fn max_component(&self) -> (i8, char, P) {
        Vector3::max_component(self)
    }

    fn magnitude(&self) -> P {
        Vector3::magnitude(self)
    }

    fn cross(lhs: Vector3<P>, rhs: Vector3<P>) -> Vector3<P> {
        Vector3::cross(lhs, rhs)
    }

    fn dot(lhs: Vector3<P>, rhs: Vector3<P>) -> P {
        Vector3::dot(lhs, rhs)
    }
}

/// Approximate equality of tuples is reflexive: a vector always compares
/// equal to itself.
pub proof fn lemma_vector_equal_reflexive<P: Scalar>(v: Vector3<P>)
    ensures
        vector_almost_eq_s(v, v),
{
    P::law_almost_eq_refl(v.x);
    P::law_almost_eq_refl(v.y);
    P::law_almost_eq_refl(v.z);
    P::law_almost_eq_refl(v.w);
}

/// Approximate equality of tuples is reflexive: a point always compares
/// equal to itself.
pub proof fn lemma_point_equal_reflexive<P: Scalar>(p: Point3<P>)
    ensures
        point_almost_eq_s(p, p),
{
    P::law_almost_eq_refl(p.x);
    P::law_almost_eq_refl(p.y);
    P::law_almost_eq_refl(p.z);
    P::law_almost_eq_refl(p.w);
}

impl<P: Scalar> Vector3<P> {
    /// A vector with every axis set to the same value.
    pub fn all(all: P) -> (r: Self)
        ensures
            r.x == all,
            r.y == all,
            r.z == all,
            r.w == P::zero_s(),
    {
        proof {
            P::law_mul_one(all);
        }
        Vector3 { x: P::one().mul(all), y: P::one().mul(all), z: P::one().mul(all), w: P::zero() }
    }

    /// A vector with the given axis values and weight zero.
    pub fn new(x: P, y: P, z: P) -> (r: Self)
        ensures
            r.x == x,
            r.y == y,
            r.z == z,
            r.w == P::zero_s(),
    {
        Vector3 { x, y, z, w: P::zero() }
    }

    /// A vector along the X axis.
    pub fn x_coord(x_val: P) -> (r: Self)
        ensures
            r.x == x_val,
            r.y == P::zero_s(),
            r.z == P::zero_s(),
            r.w == P::zero_s(),
    {
        proof {
            P::law_mul_one(x_val);
        }
        Vector3 { x: P::one().mul(x_val), y: P::zero(), z: P::zero(), w: P::zero() }
    }

    /// A vector along the Y axis.
    pub fn y_coord(y_val: P) -> (r: Self)
        ensures
            r.x == P::zero_s(),
            r.y == y_val,
            r.z == P::zero_s(),
            r.w == P::zero_s(),
    {
        proof {
            P::law_mul_one(y_val);
        }
        Vector3 { x: P::zero(), y: P::one().mul(y_val), z: P::zero(), w: P::zero() }
    }

    /// A vector along the Z axis.
    pub fn z_coord(z_val: P) -> (r: Self)
        ensures
            r.x == P::zero_s(),
            r.y == P::zero_s(),
            r.z == z_val,
            r.w == P::zero_s(),
    {
        proof {
            P::law_mul_one(z_val);
        }
        Vector3 { x: P::zero(), y: P::zero(), z: P::one().mul(z_val), w: P::zero() }
    }

    /// The vector with every coordinate one.
    pub fn one() -> (r: Self)
        ensures
            r.x == P::one_s(),
            r.y == P::one_s(),
            r.z == P::one_s(),
            r.w == P::zero_s(),
    {
        Vector3 { x: P::one(), y: P::one(), z: P::one(), w: P::zero() }
    }

    /// The zero vector.
    pub fn zero() -> (r: Self)
        ensures
            r.x == P::zero_s(),
            r.y == P::zero_s(),
            r.z == P::zero_s(),
            r.w == P::zero_s(),
    {
        Vector3 { x: P::zero(), y: P::zero(), z: P::zero(), w: P::zero() }
    }

    /// The unit vector pointing backward: negative Z.
    pub fn back() -> (r: Self)
        ensures
            r.x == P::zero_s(),
            r.y == P::zero_s(),
            r.z == P::neg_s(P::one_s()),
            r.w == P::zero_s(),
    {
        Vector3 { x: P::zero(), y: P::zero(), z: P::one().neg(), w: P::zero() }
    }

    /// The unit vector pointing down: negative Y.
    pub fn down() -> (r: Self)
        ensures
            r.x == P::zero_s(),
            r.y == P::neg_s(P::one_s()),
            r.z == P::zero_s(),
            r.w == P::zero_s(),
    {
        Vector3 { x: P::zero(), y: P::one().neg(), z: P::zero(), w: P::zero() }
    }

    /// The unit vector pointing forward: positive Z.
    pub fn forward() -> (r: Self)
        ensures
            r.x == P::zero_s(),
            r.y == P::zero_s(),
            r.z == P::one_s(),
            r.w == P::zero_s(),
    {
        Vector3 { x: P::zero(), y: P::zero(), z: P::one(), w: P::zero() }
    }

    /// The unit vector pointing left: negative X.
    pub fn left() -> (r: Self)
        ensures
            r.x == P::neg_s(P::one_s()),
            r.y == P::zero_s(),
            r.z == P::zero_s(),
            r.w == P::zero_s(),
    {
        Vector3 { x: P::one().neg(), y: P::zero(), z: P::zero(), w: P::zero() }
    }

    /// The unit vector pointing right: positive X.
    pub fn right() -> (r: Self)
        ensures
            r.x == P::one_s(),
            r.y == P::zero_s(),
            r.z == P::zero_s(),
            r.w == P::zero_s(),
    {
        Vector3 { x: P::one(), y: P::zero(), z: P::zero(), w: P::zero() }
    }

    /// The unit vector pointing up: positive Y.
    pub fn up() -> (r: Self)
        ensures
            r.x == P::zero_s(),
            r.y == P::one_s(),
            r.z == P::zero_s(),
            r.w == P::zero_s(),
    {
        Vector3 { x: P::zero(), y: P::one(), z: P::zero(), w: P::zero() }
    }

    /// The vector scaled to magnitude one by dividing every component by
    /// the magnitude.  The receiver itself is left unchanged.
    pub fn normalized(&mut self) -> (r: Self)
        ensures
            *final(self) == *old(self),
            r.x == P::div_s(old(self).x, P::sqrt_s(dot_s(*old(self), *old(self)))),
            r.y == P::div_s(old(self).y, P::sqrt_s(dot_s(*old(self), *old(self)))),
            r.z == P::div_s(old(self).z, P::sqrt_s(dot_s(*old(self), *old(self)))),
            r.w == P::div_s(old(self).w, P::sqrt_s(dot_s(*old(self), *old(self)))),
    {
        let mag = self.magnitude();
        Vector3 {
            x: self.x.div(mag),
            y: self.y.div(mag),
            z: self.z.div(mag),
            w: self.w.div(mag),
        }
    }

    /// The index, axis name and value of the smallest coordinate; the X
    /// axis wins ties with Y and Z, and Y wins ties with Z.
    pub fn min_component(&self) -> (r: (i8, char, P))
        ensures
            r == (if P::ge_s(self.y, self.x) && P::ge_s(self.z, self.x) {
                (0i8, 'x', self.x)
            } else if P::ge_s(self.z, self.y) {
                (1i8, 'y', self.y)
            } else {
                (2i8, 'z', self.z)
            }),
    {
        if self.y.ge(self.x) && self.z.ge(self.x) {
            (0, 'x', self.x)
        } else if self.z.ge(self.y) {
            (1, 'y', self.y)
        } else {
            (2, 'z', self.z)
        }
    }

    /// The index, axis name and value of the largest coordinate; the X
    /// axis wins ties with Y and Z, and Y wins ties with Z.
    pub fn max_component(&self) -> (r: (i8, char, P))
        ensures
            r == (if P::ge_s(self.x, self.y) && P::ge_s(self.x, self.z) {
                (0i8, 'x', self.x)
            } else if P::ge_s(self.y, self.z) {
                (1i8, 'y', self.y)
            } else {
                (2i8, 'z', self.z)
            }),
    {
        if self.x.ge(self.y) && self.x.ge(self.z) {
            (0, 'x', self.x)
        } else if self.y.ge(self.z) {
            (1, 'y', self.y)
        } else {
            (2, 'z', self.z)
        }
    }

    /// The magnitude: the square root of the dot product of the vector
    /// with itself.
    pub fn magnitude(&self) -> (r: P)
        ensures
            r == P::sqrt_s(dot_s(*self, *self)),
    {
        let d = Vector3::dot(*self, *self);
        d.sqrt()
    }

    /// The cross product of two vectors; the result is a vector.
    pub fn cross(lhs: Vector3<P>, rhs: Vector3<P>) -> (r: Vector3<P>)
        ensures
            r.x == P::sub_s(P::mul_s(lhs.y, rhs.z), P::mul_s(lhs.z, rhs.y)),
            r.y == P::sub_s(P::mul_s(lhs.z, rhs.x), P::mul_s(lhs.x, rhs.z)),
            r.z == P::sub_s(P::mul_s(lhs.x, rhs.y), P::mul_s(lhs.y, rhs.x)),
            r.w == P::zero_s(),
    {
        Vector3 {
            x: lhs.y.mul(rhs.z).sub(lhs.z.mul(rhs.y)),
            y: lhs.z.mul(rhs.x).sub(lhs.x.mul(rhs.z)),
            z: lhs.x.mul(rhs.y).sub(lhs.y.mul(rhs.x)),
            w: P::zero(),
        }
    }

    /// The dot product of two vectors.
    pub fn dot(lhs: Vector3<P>, rhs: Vector3<P>) -> (r: P)
        ensures
            r == dot_s(lhs, rhs),
    {
        lhs.x.mul(rhs.x).add(lhs.y.mul(rhs.y)).add(lhs.z.mul(rhs.z))
    }

    /// True when the vectors are equal within the scalar's epsilon, on
    /// every component.
    pub fn equal(&self, other: &Self) -> (r: bool)
        ensures
            r == vector_almost_eq_s(*self, *other),
    {
        self.x.almost_eq(other.x) && self.y.almost_eq(other.y) && self.z.almost_eq(other.z)
            && self.w.almost_eq(other.w)
    }

    /// Vector plus vector, component-wise; the sum of two vectors is a
    /// vector.
    pub fn add(self, rhs: Vector3<P>) -> (r: Vector3<P>)
        ensures
            r.x == P::add_s(self.x, rhs.x),
            r.y == P::add_s(self.y, rhs.y),
            r.z == P::add_s(self.z, rhs.z),
            r.w == P::add_s(self.w, rhs.w),
            self.w == P::zero_s() && rhs.w == P::zero_s() ==> r.w == P::zero_s(),
    {
        proof {
            P::law_add_zero(P::zero_s());
        }
        Vector3 {
            x: self.x.add(rhs.x),
            y: self.y.add(rhs.y),
            z: self.z.add(rhs.z),
            w: self.w.add(rhs.w),
        }
    }

    /// Vector plus point, component-wise; the sum is a point.
    pub fn add_point(self, rhs: Point3<P>) -> (r: Point3<P>)
        ensures
            r.x == P::add_s(self.x, rhs.x),
            r.y == P::add_s(self.y, rhs.y),
            r.z == P::add_s(self.z, rhs.z),
            r.w == P::add_s(self.w, rhs.w),
            self.w == P::zero_s() && rhs.w == P::one_s() ==> r.w == P::one_s(),
    {
        proof {
            P::law_add_zero(P::one_s());
        }
        Point3 {
            x: self.x.add(rhs.x),
            y: self.y.add(rhs.y),
            z: self.z.add(rhs.z),
            w: self.w.add(rhs.w),
        }
    }

    /// Vector minus vector, component-wise; the difference of two vectors
    /// is a vector.
    pub fn sub(self, rhs: Vector3<P>) -> (r: Vector3<P>)
        ensures
            r.x == P::sub_s(self.x, rhs.x),
            r.y == P::sub_s(self.y, rhs.y),
            r.z == P::sub_s(self.z, rhs.z),
            r.w == P::sub_s(self.w, rhs.w),
            self.w == rhs.w ==> r.w == P::zero_s(),
    {
        proof {
            P::law_sub_self(self.w);
        }
        Vector3 {
            x: self.x.sub(rhs.x),
            y: self.y.sub(rhs.y),
            z: self.z.sub(rhs.z),
            w: self.w.sub(rhs.w),
        }
    }

    /// The negation of every component.
    pub fn neg(self) -> (r: Vector3<P>)
        ensures
            r.x == P::neg_s(self.x),
            r.y == P::neg_s(self.y),
            r.z == P::neg_s(self.z),
            r.w == P::neg_s(self.w),
    {
        Vector3 { x: self.x.neg(), y: self.y.neg(), z: self.z.neg(), w: self.w.neg() }
    }

    /// The vector scaled by a scalar; a scaled vector keeps weight zero.
    pub fn mul(self, rhs: P) -> (r: Vector3<P>)
        ensures
            r.x == P::mul_s(self.x, rhs),
            r.y == P::mul_s(self.y, rhs),
            r.z == P::mul_s(self.z, rhs),
            r.w == P::mul_s(self.w, rhs),
            self.w == P::zero_s() ==> r.w == P::zero_s(),
    {
        proof {
            P::law_mul_zero(rhs);
        }
        Vector3 { x: self.x.mul(rhs), y: self.y.mul(rhs), z: self.z.mul(rhs), w: self.w.mul(rhs) }
    }

    /// The vector divided by a scalar, component-wise.
    pub fn div(self, rhs: P) -> (r: Vector3<P>)
        ensures
            r.x == P::div_s(self.x, rhs),
            r.y == P::div_s(self.y, rhs),
            r.z == P::div_s(self.z, rhs),
            r.w == P::div_s(self.w, rhs),
    {
        Vector3 { x: self.x.div(rhs), y: self.y.div(rhs), z: self.z.div(rhs), w: self.w.div(rhs) }
    }
}

impl<P: Scalar> Point3<P> {
    /// A point with the given axis values and weight one.
    pub fn new(x: P, y: P, z: P) -> (r: Self)
        ensures
            r.x == x,
            r.y == y,
            r.z == z,
            r.w == P::one_s(),
    {
        Point3 { x, y, z, w: P::one() }
    }

    /// A point with every axis set to the same value.
    pub fn all(all: P) -> (r: Self)
        ensures
            r.x == all,
            r.y == all,
            r.z == all,
            r.w == P::one_s(),
    {
        proof {
            P::law_mul_one(all);
        }
        Point3 { x: P::one().mul(all), y: P::one().mul(all), z: P::one().mul(all), w: P::one() }
    }

    /// A point on the X axis.
    pub fn x_coord(x_val: P) -> (r: Self)
        ensures
            r.x == x_val,
            r.y == P::zero_s(),
            r.z == P::zero_s(),
            r.w == P::one_s(),
    {
        proof {
            P::law_mul_one(x_val);
        }
        Point3 { x: P::one().mul(x_val), y: P::zero(), z: P::zero(), w: P::one() }
    }

    /// A point on the Y axis.
    pub fn y_coord(y_val: P) -> (r: Self)
        ensures
            r.x == P::zero_s(),
            r.y == y_val,
            r.z == P::zero_s(),
            r.w == P::one_s(),
    {
        proof {
            P::law_mul_one(y_val);
        }
        Point3 { x: P::zero(), y: P::one().mul(y_val), z: P::zero(), w: P::one() }
    }

    /// A point on the Z axis.
    pub fn z_coord(z_val: P) -> (r: Self)
        ensures
            r.x == P::zero_s(),
            r.y == P::zero_s(),
            r.z == z_val,
            r.w == P::one_s(),
    {
        proof {
            P::law_mul_one(z_val);
        }
        Point3 { x: P::zero(), y: P::zero(), z: P::one().mul(z_val), w: P::one() }
    }

    /// The world origin, with every coordinate zero.  The receiver is
    /// left unchanged.
    pub fn origin(&mut self) -> (r: Self)
        ensures
            *final(self) == *old(self),
            r.x == P::zero_s(),
            r.y == P::zero_s(),
            r.z == P::zero_s(),
            r.w == P::one_s(),
    {
        Point3 { x: P::zero(), y: P::zero(), z: P::zero(), w: P::one() }
    }

    /// The point with every coordinate one.
    pub fn one() -> (r: Self)
        ensures
            r.x == P::one_s(),
            r.y == P::one_s(),
            r.z == P::one_s(),
            r.w == P::one_s(),
    {
        Point3 { x: P::one(), y: P::one(), z: P::one(), w: P::one() }
    }

    /// The point at the origin.
    pub fn zero() -> (r: Self)
        ensures
            r.x == P::zero_s(),
            r.y == P::zero_s(),
            r.z == P::zero_s(),
            r.w == P::one_s(),
    {
        Point3 { x: P::zero(), y: P::zero(), z: P::zero(), w: P::one() }
    }

    /// The point one step backward from the origin: negative Z.
    pub fn back() -> (r: Self)
        ensures
            r.x == P::zero_s(),
            r.y == P::zero_s(),
            r.z == P::neg_s(P::one_s()),
            r.w == P::one_s(),
    {
        Point3 { x: P::zero(), y: P::zero(), z: P::one().neg(), w: P::one() }
    }

    /// The point one step down from the origin: negative Y.
    pub fn down() -> (r: Self)
        ensures
            r.x == P::zero_s(),
            r.y == P::neg_s(P::one_s()),
            r.z == P::zero_s(),
            r.w == P::one_s(),
    {
        Point3 { x: P::zero(), y: P::one().neg(), z: P::zero(), w: P::one() }
    }

    /// The point one step forward from the origin: positive Z.
    pub fn forward() -> (r: Self)
        ensures
            r.x == P::zero_s(),
            r.y == P::zero_s(),
            r.z == P::one_s(),
            r.w == P::one_s(),
    {
        Point3 { x: P::zero(), y: P::zero(), z: P::one(), w: P::one() }
    }

    /// The point one step left of the origin: negative X.
    pub fn left() -> (r: Self)
        ensures
            r.x == P::neg_s(P::one_s()),
            r.y == P::zero_s(),
            r.z == P::zero_s(),
            r.w == P::one_s(),
    {
        Point3 { x: P::one().neg(), y: P::zero(), z: P::zero(), w: P::one() }
    }

    /// The point one step right of the origin: positive X.
    pub fn right() -> (r: Self)
        ensures
            r.x == P::one_s(),
            r.y == P::zero_s(),
            r.z == P::zero_s(),
            r.w == P::one_s(),
    {
        Point3 { x: P::one(), y: P::zero(), z: P::zero(), w: P::one() }
    }

    /// The point one step up from the origin: positive Y.
    pub fn up() -> (r: Self)
        ensures
            r.x == P::zero_s(),
            r.y == P::one_s(),
            r.z == P::zero_s(),
            r.w == P::one_s(),
    {
        Point3 { x: P::zero(), y: P::one(), z: P::zero(), w: P::one() }
    }

    /// True when the points are equal within the scalar's epsilon, on
    /// every component.
    pub fn equal(&self, other: &Self) -> (r: bool)
        ensures
            r == point_almost_eq_s(*self, *other),
    {
        self.x.almost_eq(other.x) && self.y.almost_eq(other.y) && self.z.almost_eq(other.z)
            && self.w.almost_eq(other.w)
    }

    /// Point plus vector, component-wise; the sum is a point.
    pub fn add_vector(self, rhs: Vector3<P>) -> (r: Point3<P>)
        ensures
            r.x == P::add_s(self.x, rhs.x),
            r.y == P::add_s(self.y, rhs.y),
            r.z == P::add_s(self.z, rhs.z),
            r.w == P::add_s(self.w, rhs.w),
            self.w == P::one_s() && rhs.w == P::zero_s() ==> r.w == P::one_s(),
    {
        proof {
            P::law_add_zero(P::one_s());
        }
        Point3 {
            x: self.x.add(rhs.x),
            y: self.y.add(rhs.y),
            z: self.z.add(rhs.z),
            w: self.w.add(rhs.w),
        }
    }

    /// Point minus point, component-wise; the difference is a vector.
    pub fn sub(self, rhs: Point3<P>) -> (r: Vector3<P>)
        ensures
            r.x == P::sub_s(self.x, rhs.x),
            r.y == P::sub_s(self.y, rhs.y),
            r.z == P::sub_s(self.z, rhs.z),
            r.w == P::sub_s(self.w, rhs.w),
            self.w == rhs.w ==> r.w == P::zero_s(),
    {
        proof {
            P::law_sub_self(self.w);
        }
        Vector3 {
            x: self.x.sub(rhs.x),
            y: self.y.sub(rhs.y),
            z: self.z.sub(rhs.z),
            w: self.w.sub(rhs.w),
        }
    }

    /// Point minus vector, component-wise; the difference is a point.
    pub fn sub_vector(self, rhs: Vector3<P>) -> (r: Point3<P>)
        ensures
            r.x == P::sub_s(self.x, rhs.x),
            r.y == P::sub_s(self.y, rhs.y),
            r.z == P::sub_s(self.z, rhs.z),
            r.w == P::sub_s(self.w, rhs.w),
            self.w == P::one_s() && rhs.w == P::zero_s() ==> r.w == P::one_s(),
    {
        proof {
            P::law_sub_zero(P::one_s());
        }
        Point3 {
            x: self.x.sub(rhs.x),
            y: self.y.sub(rhs.y),
            z: self.z.sub(rhs.z),
            w: self.w.sub(rhs.w),
        }
    }

    /// The negation of the axis components; the weight is kept, so a
    /// negated point is still a point.
    pub fn neg(self) -> (r: Point3<P>)
        ensures
            r.x == P::neg_s(self.x),
            r.y == P::neg_s(self.y),
            r.z == P::neg_s(self.z),
            r.w == self.w,
    {
        Point3 { x: self.x.neg(), y: self.y.neg(), z: self.z.neg(), w: self.w }
    }

    /// The point scaled by a scalar.  The weight is scaled too, on
    /// purpose: matrix multiplication composes through it.
    pub fn mul(self, rhs: P) -> (r: Point3<P>)
        ensures
            r.x == P::mul_s(self.x, rhs),
            r.y == P::mul_s(self.y, rhs),
            r.z == P::mul_s(self.z, rhs),
            r.w == P::mul_s(self.w, rhs),
    {
        Point3 { x: self.x.mul(rhs), y: self.y.mul(rhs), z: self.z.mul(rhs), w: self.w.mul(rhs) }
    }

    /// The axis components divided by a scalar; the weight is kept, so
    /// the result is still a point.  Scaling up by multiplication moves
    /// the weight on purpose, scaling down does not.
    pub fn div(self, rhs: P) -> (r: Point3<P>)
        ensures
            r.x == P::div_s(self.x, rhs),
            r.y == P::div_s(self.y, rhs),
            r.z == P::div_s(self.z, rhs),
            r.w == self.w,
    {
        Point3 { x: self.x.div(rhs), y: self.y.div(rhs), z: self.z.div(rhs), w: self.w }
    }
}

impl<P: Scalar> Default for Vector3<P> {
    /// The zero vector.
    fn default() -> (r: Self)
        ensures
            r.x == P::zero_s(),
            r.y == P::zero_s(),
            r.z == P::zero_s(),
            r.w == P::zero_s(),
    {
        Vector3::zero()
    }
}

impl<P: Scalar> Default for Point3<P> {
    /// The point at the origin.
    fn default() -> (r: Self)
        ensures
            r.x == P::zero_s(),
            r.y == P::zero_s(),
            r.z == P::zero_s(),
            r.w == P::one_s(),
    {
        Point3::zero()
    }
}

impl<P: Scalar> PartialEq for Vector3<P> {
    fn eq(&self, other: &Self) -> (r: bool) {
        self.equal(other)
    }
}

impl<P: Scalar> vstd::std_specs::cmp::PartialEqSpecImpl for Vector3<P> {
    open spec fn obeys_eq_spec() -> bool {
        true
    }

    open spec fn eq_spec(&self, other: &Self) -> bool {
        vector_almost_eq_s(*self, *other)
    }
}

impl<P: Scalar> PartialEq for Point3<P> {
    fn eq(&self, other: &Self) -> (r: bool) {
        self.equal(other)
    }
}

impl<P: Scalar> vstd::std_specs::cmp::PartialEqSpecImpl for Point3<P> {
    open spec fn obeys_eq_spec() -> bool {
        true
    }

    open spec fn eq_spec(&self, other: &Self) -> bool {
        point_almost_eq_s(*self, *other)
    }
}

} // verus!
