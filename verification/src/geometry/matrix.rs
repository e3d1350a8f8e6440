//! 4x4 matrices over a generic scalar: determinant by Laplace expansion
//! through 3x3 and 2x2 helper matrices, the inverse by the adjugate,
//! epsilon equality, the named transform builders, and application of a
//! matrix to vectors and points.
//!
//! Each executable function carries an exact contract over specification
//! functions that state the same formulas; the determinant specification
//! is the recursive minor/cofactor expansion along row zero, exactly as
//! the code computes it.

use vstd::prelude::*;

use crate::scalar::Scalar;
use crate::geometry::vector::{Point3, Vector3};

verus! {

/// The raw data of a 4x4 matrix: rows of columns, accessed `[row][col]`.
pub type Matrix4Data<P> = [[P; 4]; 4];

/// A row of a 4x4 matrix.
pub type Matrix4Row<P> = [P; 4];

/// A column of a 4x4 matrix.
pub type Matrix4Col<P> = [P; 4];

/// Selects one of the four rows or columns of a 4x4 matrix.
#[derive(Clone, Copy, Debug)]
pub enum Matrix4Index {
    /// First row or column.
    One,
    /// Second row or column.
    Two,
    /// Third row or column.
    Three,
    /// Fourth row or column.
    Four,
}

/// A 4x4 matrix over the scalar `P`; the data lives in the `m` field,
/// indexed `[row][col]`.
#[derive(Clone, Copy, Debug)]
pub struct Matrix4<P> {
    /// The matrix entries, as rows of columns.
    pub m: Matrix4Data<P>,
}

/// A 3x3 matrix; it exists to compute 4x4 determinants and cofactors.
#[derive(Clone, Copy, Debug)]
pub struct Matrix3<P> {
    /// The matrix entries, as rows of columns.
    pub m: [[P; 3]; 3],
}

/// A 2x2 matrix; it exists to compute 3x3 determinants and cofactors.
#[derive(Clone, Copy, Debug)]
pub struct Matrix2<P> {
    /// The matrix entries, as rows of columns.
    pub m: [[P; 2]; 2],
}

/// The determinant of a 2x2 matrix.
pub open spec fn det2_s<P: Scalar>(m: Matrix2<P>) -> P {
    P::sub_s(P::mul_s(m.m[0][0], m.m[1][1]), P::mul_s(m.m[0][1], m.m[1][0]))
}

/// The entry of the submatrix of a 3x3 matrix: row `i` and column `j`
/// after deleting row `rd` and column `cd`.
pub open spec fn sub3_entry_s<P: Scalar>(m: Matrix3<P>, rd: int, cd: int, i: int, j: int) -> P {
    m.m[if i < rd {
        i
    } else {
        i + 1
    }][if j < cd {
        j
    } else {
        j + 1
    }]
}

/// The 2x2 submatrix of a 3x3 matrix after deleting one row and column.
pub open spec fn sub3_s<P: Scalar>(m: Matrix3<P>, rd: int, cd: int) -> Matrix2<P> {
    Matrix2 {
        m: [
            [sub3_entry_s(m, rd, cd, 0, 0), sub3_entry_s(m, rd, cd, 0, 1)],
            [sub3_entry_s(m, rd, cd, 1, 0), sub3_entry_s(m, rd, cd, 1, 1)],
        ],
    }
}

/// The minor of a 3x3 matrix: the determinant of its submatrix.
pub open spec fn minor3_s<P: Scalar>(m: Matrix3<P>, rd: int, cd: int) -> P {
    det2_s(sub3_s(m, rd, cd))
}

/// The cofactor of a 3x3 matrix: the minor, negated on odd positions.
pub open spec fn cof3_s<P: Scalar>(m: Matrix3<P>, rd: int, cd: int) -> P {
    if (rd + cd) % 2 == 0 {
        minor3_s(m, rd, cd)
    } else {
        P::neg_s(minor3_s(m, rd, cd))
    }
}

/// The determinant of a 3x3 matrix: cofactor expansion along row zero,
/// summed left to right from zero.
pub open spec fn det3_s<P: Scalar>(m: Matrix3<P>) -> P {
    P::add_s(
        P::add_s(
            P::add_s(P::zero_s(), P::mul_s(m.m[0][0], cof3_s(m, 0, 0))),
            P::mul_s(m.m[0][1], cof3_s(m, 0, 1)),
        ),
        P::mul_s(m.m[0][2], cof3_s(m, 0, 2)),
    )
}

/// The entry of the submatrix of a 4x4 matrix: row `i` and column `j`
/// after deleting row `rd` and column `cd`.
pub open spec fn sub4_entry_s<P: Scalar>(m: Matrix4<P>, rd: int, cd: int, i: int, j: int) -> P {
    m.m[if i < rd {
        i
    } else {
        i + 1
    }][if j < cd {
        j
    } else {
        j + 1
    }]
}

/// The 3x3 submatrix of a 4x4 matrix after deleting one row and column.
pub open spec fn sub4_s<P: Scalar>(m: Matrix4<P>, rd: int, cd: int) -> Matrix3<P> {
    Matrix3 {
        m: [
            [
                sub4_entry_s(m, rd, cd, 0, 0),
                sub4_entry_s(m, rd, cd, 0, 1),
                sub4_entry_s(m, rd, cd, 0, 2),
            ],
            [
                sub4_entry_s(m, rd, cd, 1, 0),
                sub4_entry_s(m, rd, cd, 1, 1),
                sub4_entry_s(m, rd, cd, 1, 2),
            ],
            [
                sub4_entry_s(m, rd, cd, 2, 0),
                sub4_entry_s(m, rd, cd, 2, 1),
                sub4_entry_s(m, rd, cd, 2, 2),
            ],
        ],
    }
}

/// The minor of a 4x4 matrix: the determinant of its submatrix.
pub open spec fn minor4_s<P: Scalar>(m: Matrix4<P>, rd: int, cd: int) -> P {
    det3_s(sub4_s(m, rd, cd))
}

/// The cofactor of a 4x4 matrix: the minor, negated on odd positions.
pub open spec fn cof4_s<P: Scalar>(m: Matrix4<P>, rd: int, cd: int) -> P {
    if (rd + cd) % 2 == 0 {
        minor4_s(m, rd, cd)
    } else {
        P::neg_s(minor4_s(m, rd, cd))
    }
}

/// The determinant of a 4x4 matrix: cofactor expansion along row zero,
/// summed left to right from zero.
pub open spec fn det4_s<P: Scalar>(m: Matrix4<P>) -> P {
    P::add_s(
        P::add_s(
            P::add_s(
                P::add_s(P::zero_s(), P::mul_s(m.m[0][0], cof4_s(m, 0, 0))),
                P::mul_s(m.m[0][1], cof4_s(m, 0, 1)),
            ),
            P::mul_s(m.m[0][2], cof4_s(m, 0, 2)),
        ),
        P::mul_s(m.m[0][3], cof4_s(m, 0, 3)),
    )
}

impl<P: Scalar> Matrix2<P> {
    /// A 2x2 matrix filled with zero.
    pub fn new() -> (r: Self)
        ensures
            forall|i: int, j: int| 0 <= i < 2 && 0 <= j < 2 ==> r.m[i][j] == P::zero_s(),
    {
        let zr = P::zero();
        Matrix2 { m: [[zr, zr], [zr, zr]] }
    }

    /// The determinant, `m00 * m11 - m01 * m10`.
    pub fn determinant(self) -> (r: P)
        ensures
            r == det2_s(self),
    {
        self.m[0][0].mul(self.m[1][1]).sub(self.m[0][1].mul(self.m[1][0]))
    }
}

impl<P: Scalar> Matrix3<P> {
    /// A 3x3 matrix filled with zero.
    pub fn new() -> (r: Self)
        ensures
            forall|i: int, j: int| 0 <= i < 3 && 0 <= j < 3 ==> r.m[i][j] == P::zero_s(),
    {
        let zr = P::zero();
        Matrix3 { m: [[zr, zr, zr], [zr, zr, zr], [zr, zr, zr]] }
    }

    /// One entry of the submatrix that deletes row `rd` and column `cd`.
    fn pick(&self, rd: usize, cd: usize, i: usize, j: usize) -> (r: P)
        requires
            rd < 3,
            cd < 3,
            i < 2,
            j < 2,
        ensures
            r == sub3_entry_s(*self, rd as int, cd as int, i as int, j as int),
    {
        let ri: usize = if i < rd {
            i
        } else {
            i + 1
        };
        let ci: usize = if j < cd {
            j
        } else {
            j + 1
        };
        self.m[ri][ci]
    }

    /// The 2x2 submatrix left after deleting the given row and column.
    pub fn submatrix(self, row_del: usize, col_del: usize) -> (r: Matrix2<P>)
        requires
            row_del < 3,
            col_del < 3,
        ensures
            r == sub3_s(self, row_del as int, col_del as int),
    {
        let r = Matrix2 {
            m: [
                [self.pick(row_del, col_del, 0, 0), self.pick(row_del, col_del, 0, 1)],
                [self.pick(row_del, col_del, 1, 0), self.pick(row_del, col_del, 1, 1)],
            ],
        };
        proof {
            assert(r.m[0] =~= sub3_s(self, row_del as int, col_del as int).m[0]);
            assert(r.m[1] =~= sub3_s(self, row_del as int, col_del as int).m[1]);
            assert(r.m =~= sub3_s(self, row_del as int, col_del as int).m);
        }
        r
    }

    /// The minor at the given position.
    pub fn minor(self, row_del: usize, col_del: usize) -> (r: P)
        requires
            row_del < 3,
            col_del < 3,
        ensures
            r == minor3_s(self, row_del as int, col_del as int),
    {
        self.submatrix(row_del, col_del).determinant()
    }

    /// The cofactor at the given position: the signed minor.
    pub fn cofactor(self, row_del: usize, col_del: usize) -> (r: P)
        requires
            row_del < 3,
            col_del < 3,
        ensures
            r == cof3_s(self, row_del as int, col_del as int),
    {
        if (row_del + col_del) % 2 == 0 {
            self.minor(row_del, col_del)
        } else {
            self.minor(row_del, col_del).neg()
        }
    }

    /// The determinant, by cofactor expansion along row zero.
    pub fn determinant(self) -> (r: P)
        ensures
            r == det3_s(self),
    {
        let mut det = P::zero();
        det = det.add(self.m[0][0].mul(self.cofactor(0, 0)));
        det = det.add(self.m[0][1].mul(self.cofactor(0, 1)));
        det = det.add(self.m[0][2].mul(self.cofactor(0, 2)));
        det
    }
}

impl<P: Scalar> Matrix4<P> {
    /// One entry of the submatrix that deletes row `rd` and column `cd`.
    fn pick(&self, rd: usize, cd: usize, i: usize, j: usize) -> (r: P)
        requires
            rd < 4,
            cd < 4,
            i < 3,
            j < 3,
        ensures
            r == sub4_entry_s(*self, rd as int, cd as int, i as int, j as int),
    {
        let ri: usize = if i < rd {
            i
        } else {
            i + 1
        };
        let ci: usize = if j < cd {
            j
        } else {
            j + 1
        };
        self.m[ri][ci]
    }

    /// The 3x3 submatrix left after deleting the given row and column.
    pub fn submatrix(self, row_del: usize, col_del: usize) -> (r: Matrix3<P>)
        requires
            row_del < 4,
            col_del < 4,
        ensures
            r == sub4_s(self, row_del as int, col_del as int),
    {
        let r = Matrix3 {
            m: [
                [
                    self.pick(row_del, col_del, 0, 0),
                    self.pick(row_del, col_del, 0, 1),
                    self.pick(row_del, col_del, 0, 2),
                ],
                [
                    self.pick(row_del, col_del, 1, 0),
                    self.pick(row_del, col_del, 1, 1),
                    self.pick(row_del, col_del, 1, 2),
                ],
                [
                    self.pick(row_del, col_del, 2, 0),
                    self.pick(row_del, col_del, 2, 1),
                    self.pick(row_del, col_del, 2, 2),
                ],
            ],
        };
        proof {
            assert(r.m[0] =~= sub4_s(self, row_del as int, col_del as int).m[0]);
            assert(r.m[1] =~= sub4_s(self, row_del as int, col_del as int).m[1]);
            assert(r.m[2] =~= sub4_s(self, row_del as int, col_del as int).m[2]);
            assert(r.m =~= sub4_s(self, row_del as int, col_del as int).m);
        }
        r
    }

    /// The minor at the given position.
    pub fn minor(self, row_del: usize, col_del: usize) -> (r: P)
        requires
            row_del < 4,
            col_del < 4,
        ensures
            r == minor4_s(self, row_del as int, col_del as int),
    {
        self.submatrix(row_del, col_del).determinant()
    }

    /// The cofactor at the given position: the signed minor.
    pub fn cofactor(self, row_del: usize, col_del: usize) -> (r: P)
        requires
            row_del < 4,
            col_del < 4,
        ensures
            r == cof4_s(self, row_del as int, col_del as int),
    {
        if (row_del + col_del) % 2 == 0 {
            self.minor(row_del, col_del)
        } else {
            self.minor(row_del, col_del).neg()
        }
    }

    /// The determinant, by cofactor expansion along row zero.
    pub fn determinant(self) -> (r: P)
        ensures
            r == det4_s(self),
    {
        let mut det = P::zero();
        det = det.add(self.m[0][0].mul(self.cofactor(0, 0)));
        det = det.add(self.m[0][1].mul(self.cofactor(0, 1)));
        det = det.add(self.m[0][2].mul(self.cofactor(0, 2)));
        det = det.add(self.m[0][3].mul(self.cofactor(0, 3)));
        det
    }
}

/// One entry of a matrix product: the dot product of row `i` of `a` with
/// column `j` of `b`, summed left to right.
pub open spec fn mul_entry_s<P: Scalar>(a: Matrix4<P>, b: Matrix4<P>, i: int, j: int) -> P {
    P::add_s(
        P::add_s(
            P::add_s(P::mul_s(a.m[i][0], b.m[0][j]), P::mul_s(a.m[i][1], b.m[1][j])),
            P::mul_s(a.m[i][2], b.m[2][j]),
        ),
        P::mul_s(a.m[i][3], b.m[3][j]),
    )
}

/// The product of two 4x4 matrices.
pub open spec fn mat4_mul_s<P: Scalar>(a: Matrix4<P>, b: Matrix4<P>) -> Matrix4<P> {
    Matrix4 {
        m: [
            [
                mul_entry_s(a, b, 0, 0),
                mul_entry_s(a, b, 0, 1),
                mul_entry_s(a, b, 0, 2),
                mul_entry_s(a, b, 0, 3),
            ],
            [
                mul_entry_s(a, b, 1, 0),
                mul_entry_s(a, b, 1, 1),
                mul_entry_s(a, b, 1, 2),
                mul_entry_s(a, b, 1, 3),
            ],
            [
                mul_entry_s(a, b, 2, 0),
                mul_entry_s(a, b, 2, 1),
                mul_entry_s(a, b, 2, 2),
                mul_entry_s(a, b, 2, 3),
            ],
            [
                mul_entry_s(a, b, 3, 0),
                mul_entry_s(a, b, 3, 1),
                mul_entry_s(a, b, 3, 2),
                mul_entry_s(a, b, 3, 3),
            ],
        ],
    }
}

/// Row `i` of a matrix applied to the components of a tuple, summed left
/// to right.
pub open spec fn apply_s<P: Scalar>(m: Matrix4<P>, i: int, x: P, y: P, z: P, w: P) -> P {
    P::add_s(
        P::add_s(
            P::add_s(P::mul_s(m.m[i][0], x), P::mul_s(m.m[i][1], y)),
            P::mul_s(m.m[i][2], z),
        ),
        P::mul_s(m.m[i][3], w),
    )
}

/// A matrix applied to a vector: each component is the dot product of the
/// matching row with the vector, weight included.  The same formula is
/// used whichever side of the multiplication the vector stands on.
pub open spec fn apply_vec_s<P: Scalar>(m: Matrix4<P>, v: Vector3<P>) -> Vector3<P> {
    Vector3 {
        x: apply_s(m, 0, v.x, v.y, v.z, v.w),
        y: apply_s(m, 1, v.x, v.y, v.z, v.w),
        z: apply_s(m, 2, v.x, v.y, v.z, v.w),
        w: apply_s(m, 3, v.x, v.y, v.z, v.w),
    }
}

/// A matrix applied to a point, the same way as to a vector.
pub open spec fn apply_point_s<P: Scalar>(m: Matrix4<P>, p: Point3<P>) -> Point3<P> {
    Point3 {
        x: apply_s(m, 0, p.x, p.y, p.z, p.w),
        y: apply_s(m, 1, p.x, p.y, p.z, p.w),
        z: apply_s(m, 2, p.x, p.y, p.z, p.w),
        w: apply_s(m, 3, p.x, p.y, p.z, p.w),
    }
}

/// The matrix filled with zero.
pub open spec fn mat4_zero_s<P: Scalar>() -> Matrix4<P> {
    let zr = P::zero_s();
    Matrix4 {
        m: [[zr, zr, zr, zr], [zr, zr, zr, zr], [zr, zr, zr, zr], [zr, zr, zr, zr]],
    }
}

/// The matrix filled with one.
pub open spec fn mat4_one_s<P: Scalar>() -> Matrix4<P> {
    let o = P::one_s();
    Matrix4 { m: [[o, o, o, o], [o, o, o, o], [o, o, o, o], [o, o, o, o]] }
}

/// The identity matrix.
pub open spec fn mat4_identity_s<P: Scalar>() -> Matrix4<P> {
    let o = P::one_s();
    let zr = P::zero_s();
    Matrix4 {
        m: [[o, zr, zr, zr], [zr, o, zr, zr], [zr, zr, o, zr], [zr, zr, zr, o]],
    }
}

/// The elementary translation matrix: the identity with the offsets in
/// the last column.
pub open spec fn translation_s<P: Scalar>(x: P, y: P, z: P) -> Matrix4<P> {
    let o = P::one_s();
    let zr = P::zero_s();
    Matrix4 {
        m: [[o, zr, zr, x], [zr, o, zr, y], [zr, zr, o, z], [zr, zr, zr, o]],
    }
}

/// The elementary scaling matrix: the factors on the diagonal.
pub open spec fn scaling_s<P: Scalar>(x: P, y: P, z: P) -> Matrix4<P> {
    let o = P::one_s();
    let zr = P::zero_s();
    Matrix4 {
        m: [[x, zr, zr, zr], [zr, y, zr, zr], [zr, zr, z, zr], [zr, zr, zr, o]],
    }
}

/// The elementary rotation about the X axis, by the cosine and sine of
/// the angle.
pub open spec fn rot_x_s<P: Scalar>(radians: P) -> Matrix4<P> {
    let o = P::one_s();
    let zr = P::zero_s();
    let c = P::cos_s(radians);
    let s = P::sin_s(radians);
    Matrix4 {
        m: [[o, zr, zr, zr], [zr, c, P::neg_s(s), zr], [zr, s, c, zr], [zr, zr, zr, o]],
    }
}

/// The elementary rotation about the Y axis.
pub open spec fn rot_y_s<P: Scalar>(radians: P) -> Matrix4<P> {
    let o = P::one_s();
    let zr = P::zero_s();
    let c = P::cos_s(radians);
    let s = P::sin_s(radians);
    Matrix4 {
        m: [[c, zr, s, zr], [zr, o, zr, zr], [P::neg_s(s), zr, c, zr], [zr, zr, zr, o]],
    }
}

/// The elementary rotation about the Z axis.
pub open spec fn rot_z_s<P: Scalar>(radians: P) -> Matrix4<P> {
    let o = P::one_s();
    let zr = P::zero_s();
    let c = P::cos_s(radians);
    let s = P::sin_s(radians);
    Matrix4 {
        m: [[c, P::neg_s(s), zr, zr], [s, c, zr, zr], [zr, zr, o, zr], [zr, zr, zr, o]],
    }
}

/// The elementary shearing matrix: each coordinate moved in proportion
/// to the other two.
pub open spec fn shearing_s<P: Scalar>(xy: P, xz: P, yx: P, yz: P, zx: P, zy: P) -> Matrix4<P> {
    let o = P::one_s();
    let zr = P::zero_s();
    Matrix4 {
        m: [[o, xy, xz, zr], [yx, o, yz, zr], [zx, zy, o, zr], [zr, zr, zr, o]],
    }
}

/// The transpose: rows become columns.
pub open spec fn transpose_s<P: Scalar>(a: Matrix4<P>) -> Matrix4<P> {
    Matrix4 {
        m: [
            [a.m[0][0], a.m[1][0], a.m[2][0], a.m[3][0]],
            [a.m[0][1], a.m[1][1], a.m[2][1], a.m[3][1]],
            [a.m[0][2], a.m[1][2], a.m[2][2], a.m[3][2]],
            [a.m[0][3], a.m[1][3], a.m[2][3], a.m[3][3]],
        ],
    }
}

/// The inverse: entry `[col][row]` is the cofactor at `(row, col)`
/// divided by the determinant, which folds the adjugate transpose into
/// one pass.
pub open spec fn inverse_s<P: Scalar>(a: Matrix4<P>) -> Matrix4<P> {
    let d = det4_s(a);
    Matrix4 {
        m: [
            [
                P::div_s(cof4_s(a, 0, 0), d),
                P::div_s(cof4_s(a, 1, 0), d),
                P::div_s(cof4_s(a, 2, 0), d),
                P::div_s(cof4_s(a, 3, 0), d),
            ],
            [
                P::div_s(cof4_s(a, 0, 1), d),
                P::div_s(cof4_s(a, 1, 1), d),
                P::div_s(cof4_s(a, 2, 1), d),
                P::div_s(cof4_s(a, 3, 1), d),
            ],
            [
                P::div_s(cof4_s(a, 0, 2), d),
                P::div_s(cof4_s(a, 1, 2), d),
                P::div_s(cof4_s(a, 2, 2), d),
                P::div_s(cof4_s(a, 3, 2), d),
            ],
            [
                P::div_s(cof4_s(a, 0, 3), d),
                P::div_s(cof4_s(a, 1, 3), d),
                P::div_s(cof4_s(a, 2, 3), d),
                P::div_s(cof4_s(a, 3, 3), d),
            ],
        ],
    }
}

/// Approximate equality of two matrices: every entry within epsilon.
pub open spec fn mat4_almost_eq_s<P: Scalar>(a: Matrix4<P>, b: Matrix4<P>) -> bool {
    &&& P::almost_eq_s(a.m[0][0], b.m[0][0])
    &&& P::almost_eq_s(a.m[0][1], b.m[0][1])
    &&& P::almost_eq_s(a.m[0][2], b.m[0][2])
    &&& P::almost_eq_s(a.m[0][3], b.m[0][3])
    &&& P::almost_eq_s(a.m[1][0], b.m[1][0])
    &&& P::almost_eq_s(a.m[1][1], b.m[1][1])
    &&& P::almost_eq_s(a.m[1][2], b.m[1][2])
    &&& P::almost_eq_s(a.m[1][3], b.m[1][3])
    &&& P::almost_eq_s(a.m[2][0], b.m[2][0])
    &&& P::almost_eq_s(a.m[2][1], b.m[2][1])
    &&& P::almost_eq_s(a.m[2][2], b.m[2][2])
    &&& P::almost_eq_s(a.m[2][3], b.m[2][3])
    &&& P::almost_eq_s(a.m[3][0], b.m[3][0])
    &&& P::almost_eq_s(a.m[3][1], b.m[3][1])
    &&& P::almost_eq_s(a.m[3][2], b.m[3][2])
    &&& P::almost_eq_s(a.m[3][3], b.m[3][3])
}

/// The row or column number an index selector stands for.
pub open spec fn index_s(index: Matrix4Index) -> int {
    match index {
        Matrix4Index::One => 0,
        Matrix4Index::Two => 1,
        Matrix4Index::Three => 2,
        Matrix4Index::Four => 3,
    }
}

impl<P: Scalar> Matrix4<P> {
    /// The dot product of one of this matrix's rows with one of the
    /// other's columns.
    fn row_dot(&self, rhs: &Matrix4<P>, row: usize, col: usize) -> (r: P)
        requires
            row < 4,
            col < 4,
        ensures
            r == mul_entry_s(*self, *rhs, row as int, col as int),
    {
        self.m[row][0].mul(rhs.m[0][col]).add(self.m[row][1].mul(rhs.m[1][col])).add(
            self.m[row][2].mul(rhs.m[2][col]),
        ).add(self.m[row][3].mul(rhs.m[3][col]))
    }

    /// The matrix product, row-by-column.
    pub fn mul(self, rhs: Self) -> (r: Self)
        ensures
            r == mat4_mul_s(self, rhs),
    {
        let r = Matrix4 {
            m: [
                [
                    self.row_dot(&rhs, 0, 0),
                    self.row_dot(&rhs, 0, 1),
                    self.row_dot(&rhs, 0, 2),
                    self.row_dot(&rhs, 0, 3),
                ],
                [
                    self.row_dot(&rhs, 1, 0),
                    self.row_dot(&rhs, 1, 1),
                    self.row_dot(&rhs, 1, 2),
                    self.row_dot(&rhs, 1, 3),
                ],
                [
                    self.row_dot(&rhs, 2, 0),
                    self.row_dot(&rhs, 2, 1),
                    self.row_dot(&rhs, 2, 2),
                    self.row_dot(&rhs, 2, 3),
                ],
                [
                    self.row_dot(&rhs, 3, 0),
                    self.row_dot(&rhs, 3, 1),
                    self.row_dot(&rhs, 3, 2),
                    self.row_dot(&rhs, 3, 3),
                ],
            ],
        };
        proof {
            assert(r.m[0] =~= mat4_mul_s(self, rhs).m[0]);
            assert(r.m[1] =~= mat4_mul_s(self, rhs).m[1]);
            assert(r.m[2] =~= mat4_mul_s(self, rhs).m[2]);
            assert(r.m[3] =~= mat4_mul_s(self, rhs).m[3]);
            assert(r.m =~= mat4_mul_s(self, rhs).m);
        }
        r
    }

    /// Replaces the receiver with the product of itself and `rhs`.
    pub fn mul_assign(&mut self, rhs: Self)
        ensures
            *final(self) == mat4_mul_s(*old(self), rhs),
    {
        *self = Matrix4::mul(*self, rhs);
    }

    /// One row of this matrix applied to the components of a tuple.
    fn row_apply(&self, row: usize, x: P, y: P, z: P, w: P) -> (r: P)
        requires
            row < 4,
        ensures
            r == apply_s(*self, row as int, x, y, z, w),
    {
        self.m[row][0].mul(x).add(self.m[row][1].mul(y)).add(self.m[row][2].mul(z)).add(
            self.m[row][3].mul(w),
        )
    }

    /// The matrix applied to a vector.
    pub fn mul_vector(self, rhs: Vector3<P>) -> (r: Vector3<P>)
        ensures
            r == apply_vec_s(self, rhs),
    {
        Vector3 {
            x: self.row_apply(0, rhs.x, rhs.y, rhs.z, rhs.w),
            y: self.row_apply(1, rhs.x, rhs.y, rhs.z, rhs.w),
            z: self.row_apply(2, rhs.x, rhs.y, rhs.z, rhs.w),
            w: self.row_apply(3, rhs.x, rhs.y, rhs.z, rhs.w),
        }
    }

    /// The matrix applied to a point.
    pub fn mul_point(self, rhs: Point3<P>) -> (r: Point3<P>)
        ensures
            r == apply_point_s(self, rhs),
    {
        Point3 {
            x: self.row_apply(0, rhs.x, rhs.y, rhs.z, rhs.w),
            y: self.row_apply(1, rhs.x, rhs.y, rhs.z, rhs.w),
            z: self.row_apply(2, rhs.x, rhs.y, rhs.z, rhs.w),
            w: self.row_apply(3, rhs.x, rhs.y, rhs.z, rhs.w),
        }
    }

    /// True when the matrices are equal within the scalar's epsilon, on
    /// every entry.
    pub fn equal(&self, other: &Self) -> (r: bool)
        ensures
            r == mat4_almost_eq_s(*self, *other),
    {
        self.m[0][0].almost_eq(other.m[0][0]) && self.m[0][1].almost_eq(other.m[0][1])
            && self.m[0][2].almost_eq(other.m[0][2]) && self.m[0][3].almost_eq(other.m[0][3])
            && self.m[1][0].almost_eq(other.m[1][0]) && self.m[1][1].almost_eq(other.m[1][1])
            && self.m[1][2].almost_eq(other.m[1][2]) && self.m[1][3].almost_eq(other.m[1][3])
            && self.m[2][0].almost_eq(other.m[2][0]) && self.m[2][1].almost_eq(other.m[2][1])
            && self.m[2][2].almost_eq(other.m[2][2]) && self.m[2][3].almost_eq(other.m[2][3])
            && self.m[3][0].almost_eq(other.m[3][0]) && self.m[3][1].almost_eq(other.m[3][1])
            && self.m[3][2].almost_eq(other.m[3][2]) && self.m[3][3].almost_eq(other.m[3][3])
    }

    /// One whole row, selected by index.
    pub fn get_row(&self, index: Matrix4Index) -> (r: Matrix4Row<P>)
        ensures
            r == self.m[index_s(index)],
    {
        let i: usize = match index {
            Matrix4Index::One => 0,
            Matrix4Index::Two => 1,
            Matrix4Index::Three => 2,
            Matrix4Index::Four => 3,
        };
        self.m[i]
    }

    /// One whole column, selected by index.
    pub fn get_col(&self, index: Matrix4Index) -> (r: Matrix4Col<P>)
        ensures
            r[0] == self.m[0][index_s(index)],
            r[1] == self.m[1][index_s(index)],
            r[2] == self.m[2][index_s(index)],
            r[3] == self.m[3][index_s(index)],
    {
        let i: usize = match index {
            Matrix4Index::One => 0,
            Matrix4Index::Two => 1,
            Matrix4Index::Three => 2,
            Matrix4Index::Four => 3,
        };
        [self.m[0][i], self.m[1][i], self.m[2][i], self.m[3][i]]
    }

    /// The identity matrix.
    pub fn identity() -> (r: Self)
        ensures
            r == mat4_identity_s::<P>(),
    {
        let o = P::one();
        let zr = P::zero();
        let r = Matrix4 {
            m: [[o, zr, zr, zr], [zr, o, zr, zr], [zr, zr, o, zr], [zr, zr, zr, o]],
        };
        proof {
            assert(r.m =~= mat4_identity_s::<P>().m);
        }
        r
    }

    /// The matrix filled with zero.
    pub fn zero() -> (r: Self)
        ensures
            r == mat4_zero_s::<P>(),
    {
        let zr = P::zero();
        let r = Matrix4 {
            m: [[zr, zr, zr, zr], [zr, zr, zr, zr], [zr, zr, zr, zr], [zr, zr, zr, zr]],
        };
        proof {
            assert(r.m =~= mat4_zero_s::<P>().m);
        }
        r
    }

    /// The matrix filled with one.
    pub fn one() -> (r: Self)
        ensures
            r == mat4_one_s::<P>(),
    {
        let o = P::one();
        let r = Matrix4 { m: [[o, o, o, o], [o, o, o, o], [o, o, o, o], [o, o, o, o]] };
        proof {
            assert(r.m =~= mat4_one_s::<P>().m);
        }
        r
    }

    /// A matrix with the given data, or filled with zero when none is
    /// given.
    pub fn new(data: Option<Matrix4Data<P>>) -> (r: Self)
        ensures
            data matches Some(d) ==> r.m == d,
            data is None ==> r == mat4_zero_s::<P>(),
    {
        match data {
            None => Matrix4::zero(),
            Some(d) => Matrix4 { m: d },
        }
    }

    /// Whether the matrix can be inverted: its determinant is not
    /// exactly zero.
    pub fn invertible(&self) -> (r: bool)
        ensures
            r == (det4_s(*self) != P::zero_s()),
    {
        !self.determinant().eq_exact(P::zero())
    }

    /// The inverse, by cofactors over the determinant with the transpose
    /// folded in.  Inverting a matrix whose determinant is exactly zero
    /// is a precondition violation, not a recoverable case.
    pub fn inverse(self) -> (r: Self)
        requires
            det4_s(self) != P::zero_s(),
        ensures
            r == inverse_s(self),
    {
        let det = self.determinant();
        let r = Matrix4 {
            m: [
                [
                    self.cofactor(0, 0).div(det),
                    self.cofactor(1, 0).div(det),
                    self.cofactor(2, 0).div(det),
                    self.cofactor(3, 0).div(det),
                ],
                [
                    self.cofactor(0, 1).div(det),
                    self.cofactor(1, 1).div(det),
                    self.cofactor(2, 1).div(det),
                    self.cofactor(3, 1).div(det),
                ],
                [
                    self.cofactor(0, 2).div(det),
                    self.cofactor(1, 2).div(det),
                    self.cofactor(2, 2).div(det),
                    self.cofactor(3, 2).div(det),
                ],
                [
                    self.cofactor(0, 3).div(det),
                    self.cofactor(1, 3).div(det),
                    self.cofactor(2, 3).div(det),
                    self.cofactor(3, 3).div(det),
                ],
            ],
        };
        proof {
            assert(r.m[0] =~= inverse_s(self).m[0]);
            assert(r.m[1] =~= inverse_s(self).m[1]);
            assert(r.m[2] =~= inverse_s(self).m[2]);
            assert(r.m[3] =~= inverse_s(self).m[3]);
            assert(r.m =~= inverse_s(self).m);
        }
        r
    }

    /// Left-multiplies the elementary translation onto the receiver and
    /// returns the new value, so that chained builder calls compose in
    /// call order.
    pub fn translate(&mut self, x: P, y: P, z: P) -> (r: Self)
        ensures
            *final(self) == mat4_mul_s(translation_s(x, y, z), *old(self)),
            r == *final(self),
    {
        let o = P::one();
        let zr = P::zero();
        let e = Matrix4 {
            m: [[o, zr, zr, x], [zr, o, zr, y], [zr, zr, o, z], [zr, zr, zr, o]],
        };
        proof {
            assert(e.m =~= translation_s(x, y, z).m);
        }
        let res = e.mul(*self);
        *self = res;
        res
    }

    /// Left-multiplies the elementary scaling onto the receiver and
    /// returns the new value.
    pub fn scale(&mut self, x: P, y: P, z: P) -> (r: Self)
        ensures
            *final(self) == mat4_mul_s(scaling_s(x, y, z), *old(self)),
            r == *final(self),
    {
        let o = P::one();
        let zr = P::zero();
        let e = Matrix4 {
            m: [[x, zr, zr, zr], [zr, y, zr, zr], [zr, zr, z, zr], [zr, zr, zr, o]],
        };
        proof {
            assert(e.m =~= scaling_s(x, y, z).m);
        }
        let res = e.mul(*self);
        *self = res;
        res
    }

    /// Left-multiplies the elementary rotation about the X axis onto the
    /// receiver and returns the new value.
    pub fn rotate_x(&mut self, radians: P) -> (r: Self)
        ensures
            *final(self) == mat4_mul_s(rot_x_s(radians), *old(self)),
            r == *final(self),
    {
        let o = P::one();
        let zr = P::zero();
        let p_cos = radians.cos();
        let p_sin = radians.sin();
        let e = Matrix4 {
            m: [
                [o, zr, zr, zr],
                [zr, p_cos, p_sin.neg(), zr],
                [zr, p_sin, p_cos, zr],
                [zr, zr, zr, o],
            ],
        };
        proof {
            assert(e.m =~= rot_x_s(radians).m);
        }
        let res = e.mul(*self);
        *self = res;
        res
    }

    /// Left-multiplies the elementary rotation about the Y axis onto the
    /// receiver and returns the new value.
    pub fn rotate_y(&mut self, radians: P) -> (r: Self)
        ensures
            *final(self) == mat4_mul_s(rot_y_s(radians), *old(self)),
            r == *final(self),
    {
        let o = P::one();
        let zr = P::zero();
        let p_cos = radians.cos();
        let p_sin = radians.sin();
        let e = Matrix4 {
            m: [
                [p_cos, zr, p_sin, zr],
                [zr, o, zr, zr],
                [p_sin.neg(), zr, p_cos, zr],
                [zr, zr, zr, o],
            ],
        };
        proof {
            assert(e.m =~= rot_y_s(radians).m);
        }
        let res = e.mul(*self);
        *self = res;
        res
    }

    /// Left-multiplies the elementary rotation about the Z axis onto the
    /// receiver and returns the new value.
    pub fn rotate_z(&mut self, radians: P) -> (r: Self)
        ensures
            *final(self) == mat4_mul_s(rot_z_s(radians), *old(self)),
            r == *final(self),
    {
        let o = P::one();
        let zr = P::zero();
        let p_cos = radians.cos();
        let p_sin = radians.sin();
        let e = Matrix4 {
            m: [
                [p_cos, p_sin.neg(), zr, zr],
                [p_sin, p_cos, zr, zr],
                [zr, zr, o, zr],
                [zr, zr, zr, o],
            ],
        };
        proof {
            assert(e.m =~= rot_z_s(radians).m);
        }
        let res = e.mul(*self);
        *self = res;
        res
    }

    /// Left-multiplies the elementary shearing onto the receiver and
    /// returns the new value.
    pub fn shear(&mut self, xy: P, xz: P, yx: P, yz: P, zx: P, zy: P) -> (r: Self)
        ensures
            *final(self) == mat4_mul_s(shearing_s(xy, xz, yx, yz, zx, zy), *old(self)),
            r == *final(self),
    {
        let o = P::one();
        let zr = P::zero();
        let e = Matrix4 {
            m: [[o, xy, xz, zr], [yx, o, yz, zr], [zx, zy, o, zr], [zr, zr, zr, o]],
        };
        proof {
            assert(e.m =~= shearing_s(xy, xz, yx, yz, zx, zy).m);
        }
        let res = e.mul(*self);
        *self = res;
        res
    }

    /// Left-multiplies the transpose of the receiver onto the receiver
    /// and returns the new value.  Like the other builders this composes
    /// rather than replaces: the result is the transpose times the old
    /// matrix, a deliberate asymmetry with a plain transpose.
    pub fn transpose(&mut self) -> (r: Self)
        ensures
            *final(self) == mat4_mul_s(transpose_s(*old(self)), *old(self)),
            r == *final(self),
    {
        let e = Matrix4 {
            m: [
                [self.m[0][0], self.m[1][0], self.m[2][0], self.m[3][0]],
                [self.m[0][1], self.m[1][1], self.m[2][1], self.m[3][1]],
                [self.m[0][2], self.m[1][2], self.m[2][2], self.m[3][2]],
                [self.m[0][3], self.m[1][3], self.m[2][3], self.m[3][3]],
            ],
        };
        proof {
            assert(e.m[0] =~= transpose_s(*self).m[0]);
            assert(e.m[1] =~= transpose_s(*self).m[1]);
            assert(e.m[2] =~= transpose_s(*self).m[2]);
            assert(e.m[3] =~= transpose_s(*self).m[3]);
            assert(e.m =~= transpose_s(*self).m);
        }
        let res = e.mul(*self);
        *self = res;
        res
    }

    /// Resets the receiver to the identity and returns it.
    pub fn to_identity(&mut self) -> (r: Self)
        ensures
            *final(self) == mat4_identity_s::<P>(),
            r == *final(self),
    {
        *self = Matrix4::identity();
        *self
    }
}

/// The capabilities to initialise and transform a 4x4 matrix.  The one
/// specification member `m_s` reads the matrix value an implementor
/// stands for, and every contract speaks through it.
pub trait Matrix4Ops<P: Scalar>: Sized {
    /// The matrix value the implementor stands for.
    spec fn m_s(x: Self) -> Matrix4<P>;

    /// True when the matrices are equal within the scalar's epsilon.
    fn equal(&self, other: &Self) -> (r: bool)
        ensures
            r == mat4_almost_eq_s(Self::m_s(*self), Self::m_s(*other)),
    ;

    /// One whole row, selected by index.
    fn get_row(&self, index: Matrix4Index) -> (r: Matrix4Row<P>)
        ensures
            r == Self::m_s(*self).m[index_s(index)],
    ;

    /// One whole column, selected by index.
    fn get_col(&self, index: Matrix4Index) -> (r: Matrix4Col<P>)
        ensures
            r[0] == Self::m_s(*self).m[0][index_s(index)],
            r[1] == Self::m_s(*self).m[1][index_s(index)],
            r[2] == Self::m_s(*self).m[2][index_s(index)],
            r[3] == Self::m_s(*self).m[3][index_s(index)],
    ;

    /// The identity matrix.
    fn identity() -> (r: Self)
        ensures
            Self::m_s(r) == mat4_identity_s::<P>(),
    ;

    /// The inverse of an invertible matrix.
    fn inverse(self) -> (r: Self)
        requires
            det4_s(Self::m_s(self)) != P::zero_s(),
        ensures
            Self::m_s(r) == inverse_s(Self::m_s(self)),
    ;

    /// A matrix with the given data, or filled with zero when none is
    /// given.
    fn new(data: Option<Matrix4Data<P>>) -> (r: Self)
        ensures
            data matches Some(d) ==> Self::m_s(r).m == d,
            data is None ==> Self::m_s(r) == mat4_zero_s::<P>(),
    ;

    /// The matrix filled with one.
    fn one() -> (r: Self)
        ensures
            Self::m_s(r) == mat4_one_s::<P>(),
    ;

    /// Left-multiplies the elementary rotation about the X axis onto the
    /// receiver and returns the new value.
    fn rotate_x(&mut self, radians: P) -> (r: Self)
        ensures
            Self::m_s(*final(self)) == mat4_mul_s(rot_x_s(radians), Self::m_s(*old(self))),
            r == *final(self),
    ;

    /// Left-multiplies the elementary rotation about the Y axis onto the
    /// receiver and returns the new value.
    fn rotate_y(&mut self, radians: P) -> (r: Self)
        ensures
            Self::m_s(*final(self)) == mat4_mul_s(rot_y_s(radians), Self::m_s(*old(self))),
            r == *final(self),
    ;

    /// Left-multiplies the elementary rotation about the Z axis onto the
    /// receiver and returns the new value.
    fn rotate_z(&mut self, radians: P) -> (r: Self)
        ensures
            Self::m_s(*final(self)) == mat4_mul_s(rot_z_s(radians), Self::m_s(*old(self))),
            r == *final(self),
    ;

    /// Left-multiplies the elementary scaling onto the receiver and
    /// returns the new value.
    fn scale(&mut self, x: P, y: P, z: P) -> (r: Self)
        ensures
            Self::m_s(*final(self)) == mat4_mul_s(scaling_s(x, y, z), Self::m_s(*old(self))),
            r == *final(self),
    ;

    /// Left-multiplies the elementary shearing onto the receiver and
    /// returns the new value.
    fn shear(&mut self, xy: P, xz: P, yx: P, yz: P, zx: P, zy: P) -> (r: Self)
        ensures
            Self::m_s(*final(self)) == mat4_mul_s(
                shearing_s(xy, xz, yx, yz, zx, zy),
                Self::m_s(*old(self)),
            ),
            r == *final(self),
    ;

    /// Left-multiplies the transpose of the receiver onto the receiver
    /// and returns the new value.
    fn transpose(&mut self) -> (r: Self)
        ensures
            Self::m_s(*final(self)) == mat4_mul_s(
                transpose_s(Self::m_s(*old(self))),
                Self::m_s(*old(self)),
            ),
            r == *final(self),
    ;

    /// Left-multiplies the elementary translation onto the receiver and
    /// returns the new value.
    fn translate(&mut self, x: P, y: P, z: P) -> (r: Self)
        ensures
            Self::m_s(*final(self)) == mat4_mul_s(translation_s(x, y, z), Self::m_s(*old(self))),
            r == *final(self),
    ;

    /// Resets the receiver to the identity and returns it.
    fn to_identity(&mut self) -> (r: Self)
        ensures
            Self::m_s(*final(self)) == mat4_identity_s::<P>(),
            r == *final(self),
    ;

    /// The matrix filled with zero.
    fn zero() -> (r: Self)
        ensures
            Self::m_s(r) == mat4_zero_s::<P>(),
    ;
}

impl<P: Scalar> Matrix4Ops<P> for Matrix4<P> {
    open spec fn m_s(x: Self) -> Matrix4<P> {
        x
    }

    fn equal(&self, other: &Self) -> bool {
        Matrix4::equal(self, other)
    }

    fn get_row(&self, index: Matrix4Index) -> Matrix4Row<P> {
        Matrix4::get_row(self, index)
    }

    fn get_col(&self, index: Matrix4Index) -> Matrix4Col<P> {
        Matrix4::get_col(self, index)
    }

    fn identity() -> Self {
        Matrix4::identity()
    }

    fn inverse(self) -> Self {
        Matrix4::inverse(self)
    }

    fn new(data: Option<Matrix4Data<P>>) -> Self {
        Matrix4::new(data)
    }

    fn one() -> Self {
        Matrix4::one()
    }

    fn rotate_x(&mut self, radians: P) -> Self {
        Matrix4::rotate_x(self, radians)
    }

    fn rotate_y(&mut self, radians: P) -> Self {
        Matrix4::rotate_y(self, radians)
    }

    fn rotate_z(&mut self, radians: P) -> Self {
        Matrix4::rotate_z(self, radians)
    }

    fn scale(&mut self, x: P, y: P, z: P) -> Self {
        Matrix4::scale(self, x, y, z)
    }

    fn shear(&mut self, xy: P, xz: P, yx: P, yz: P, zx: P, zy: P) -> Self {
        Matrix4::shear(self, xy, xz, yx, yz, zx, zy)
    }

    fn transpose(&mut self) -> Self {
        Matrix4::transpose(self)
    }

    fn translate(&mut self, x: P, y: P, z: P) -> Self {
        Matrix4::translate(self, x, y, z)
    }

    fn to_identity(&mut self) -> Self {
        Matrix4::to_identity(self)
    }

    fn zero() -> Self {
        Matrix4::zero()
    }
}

impl<P: Scalar> Vector3<P> {
    /// The commuted product: the matrix applied to this vector, with no
    /// transpose; both operand orders mean the same application.
    pub fn mul_matrix(self, rhs: Matrix4<P>) -> (r: Vector3<P>)
        ensures
            r == apply_vec_s(rhs, self),
    {
        rhs.mul_vector(self)
    }
}

impl<P: Scalar> Point3<P> {
    /// The commuted product: the matrix applied to this point, with no
    /// transpose; both operand orders mean the same application.
    pub fn mul_matrix(self, rhs: Matrix4<P>) -> (r: Point3<P>)
        ensures
            r == apply_point_s(rhs, self),
    {
        rhs.mul_point(self)
    }
}

impl<P: Scalar> Default for Matrix4<P> {
    /// The matrix filled with zero.
    fn default() -> (r: Self)
        ensures
            r == mat4_zero_s::<P>(),
    {
        Matrix4::zero()
    }
}

impl<P: Scalar> PartialEq for Matrix4<P> {
    fn eq(&self, other: &Self) -> (r: bool) {
        self.equal(other)
    }
}

impl<P: Scalar> vstd::std_specs::cmp::PartialEqSpecImpl for Matrix4<P> {
    open spec fn obeys_eq_spec() -> bool {
        true
    }

    open spec fn eq_spec(&self, other: &Self) -> bool {
        mat4_almost_eq_s(*self, *other)
    }
}

/// Approximate equality of matrices is reflexive: a matrix always
/// compares equal to itself.
pub proof fn lemma_matrix_equal_reflexive<P: Scalar>(m: Matrix4<P>)
    ensures
        mat4_almost_eq_s(m, m),
{
    P::law_almost_eq_refl(m.m[0][0]);
    P::law_almost_eq_refl(m.m[0][1]);
    P::law_almost_eq_refl(m.m[0][2]);
    P::law_almost_eq_refl(m.m[0][3]);
    P::law_almost_eq_refl(m.m[1][0]);
    P::law_almost_eq_refl(m.m[1][1]);
    P::law_almost_eq_refl(m.m[1][2]);
    P::law_almost_eq_refl(m.m[1][3]);
    P::law_almost_eq_refl(m.m[2][0]);
    P::law_almost_eq_refl(m.m[2][1]);
    P::law_almost_eq_refl(m.m[2][2]);
    P::law_almost_eq_refl(m.m[2][3]);
    P::law_almost_eq_refl(m.m[3][0]);
    P::law_almost_eq_refl(m.m[3][1]);
    P::law_almost_eq_refl(m.m[3][2]);
    P::law_almost_eq_refl(m.m[3][3]);
}

/// A four-term sum of products against a unit column: when the other
/// factors are one at one position and zero elsewhere, the sum collapses
/// to the element at that position.
proof fn lemma_unit_sum_right<P: Scalar>(a0: P, a1: P, a2: P, a3: P)
    ensures
        P::add_s(
            P::add_s(
                P::add_s(P::mul_s(a0, P::one_s()), P::mul_s(a1, P::zero_s())),
                P::mul_s(a2, P::zero_s()),
            ),
            P::mul_s(a3, P::zero_s()),
        ) == a0,
        P::add_s(
            P::add_s(
                P::add_s(P::mul_s(a0, P::zero_s()), P::mul_s(a1, P::one_s())),
                P::mul_s(a2, P::zero_s()),
            ),
            P::mul_s(a3, P::zero_s()),
        ) == a1,
        P::add_s(
            P::add_s(
                P::add_s(P::mul_s(a0, P::zero_s()), P::mul_s(a1, P::zero_s())),
                P::mul_s(a2, P::one_s()),
            ),
            P::mul_s(a3, P::zero_s()),
        ) == a2,
        P::add_s(
            P::add_s(
                P::add_s(P::mul_s(a0, P::zero_s()), P::mul_s(a1, P::zero_s())),
                P::mul_s(a2, P::zero_s()),
            ),
            P::mul_s(a3, P::one_s()),
        ) == a3,
{
    P::law_mul_one(a0);
    P::law_mul_one(a1);
    P::law_mul_one(a2);
    P::law_mul_one(a3);
    P::law_mul_zero(a0);
    P::law_mul_zero(a1);
    P::law_mul_zero(a2);
    P::law_mul_zero(a3);
    P::law_add_zero(a0);
    P::law_add_zero(a1);
    P::law_add_zero(a2);
    P::law_add_zero(a3);
    P::law_add_zero(P::zero_s());
}

/// The mirrored form: the units stand on the left of each product.
proof fn lemma_unit_sum_left<P: Scalar>(a0: P, a1: P, a2: P, a3: P)
    ensures
        P::add_s(
            P::add_s(
                P::add_s(P::mul_s(P::one_s(), a0), P::mul_s(P::zero_s(), a1)),
                P::mul_s(P::zero_s(), a2),
            ),
            P::mul_s(P::zero_s(), a3),
        ) == a0,
        P::add_s(
            P::add_s(
                P::add_s(P::mul_s(P::zero_s(), a0), P::mul_s(P::one_s(), a1)),
                P::mul_s(P::zero_s(), a2),
            ),
            P::mul_s(P::zero_s(), a3),
        ) == a1,
        P::add_s(
            P::add_s(
                P::add_s(P::mul_s(P::zero_s(), a0), P::mul_s(P::zero_s(), a1)),
                P::mul_s(P::one_s(), a2),
            ),
            P::mul_s(P::zero_s(), a3),
        ) == a2,
        P::add_s(
            P::add_s(
                P::add_s(P::mul_s(P::zero_s(), a0), P::mul_s(P::zero_s(), a1)),
                P::mul_s(P::zero_s(), a2),
            ),
            P::mul_s(P::one_s(), a3),
        ) == a3,
{
    P::law_mul_one(a0);
    P::law_mul_one(a1);
    P::law_mul_one(a2);
    P::law_mul_one(a3);
    P::law_mul_zero(a0);
    P::law_mul_zero(a1);
    P::law_mul_zero(a2);
    P::law_mul_zero(a3);
    P::law_add_zero(a0);
    P::law_add_zero(a1);
    P::law_add_zero(a2);
    P::law_add_zero(a3);
    P::law_add_zero(P::zero_s());
}

/// Multiplying by the identity on the right leaves a matrix unchanged.
pub proof fn lemma_mul_identity_right<P: Scalar>(m: Matrix4<P>)
    ensures
        mat4_mul_s(m, mat4_identity_s::<P>()) == m,
{
    lemma_unit_sum_right(m.m[0][0], m.m[0][1], m.m[0][2], m.m[0][3]);
    lemma_unit_sum_right(m.m[1][0], m.m[1][1], m.m[1][2], m.m[1][3]);
    lemma_unit_sum_right(m.m[2][0], m.m[2][1], m.m[2][2], m.m[2][3]);
    lemma_unit_sum_right(m.m[3][0], m.m[3][1], m.m[3][2], m.m[3][3]);
    let p = mat4_mul_s(m, mat4_identity_s::<P>());
    assert(p.m[0] =~= m.m[0]);
    assert(p.m[1] =~= m.m[1]);
    assert(p.m[2] =~= m.m[2]);
    assert(p.m[3] =~= m.m[3]);
    assert(p.m =~= m.m);
}

/// Multiplying by the identity on the left leaves a matrix unchanged.
pub proof fn lemma_mul_identity_left<P: Scalar>(m: Matrix4<P>)
    ensures
        mat4_mul_s(mat4_identity_s::<P>(), m) == m,
{
    lemma_unit_sum_left(m.m[0][0], m.m[1][0], m.m[2][0], m.m[3][0]);
    lemma_unit_sum_left(m.m[0][1], m.m[1][1], m.m[2][1], m.m[3][1]);
    lemma_unit_sum_left(m.m[0][2], m.m[1][2], m.m[2][2], m.m[3][2]);
    lemma_unit_sum_left(m.m[0][3], m.m[1][3], m.m[2][3], m.m[3][3]);
    let p = mat4_mul_s(mat4_identity_s::<P>(), m);
    assert(p.m[0] =~= m.m[0]);
    assert(p.m[1] =~= m.m[1]);
    assert(p.m[2] =~= m.m[2]);
    assert(p.m[3] =~= m.m[3]);
    assert(p.m =~= m.m);
}

/// The identity matrix applied to a point gives the point back.
pub proof fn lemma_identity_apply_point<P: Scalar>(p: Point3<P>)
    ensures
        apply_point_s(mat4_identity_s::<P>(), p) == p,
{
    lemma_unit_sum_left(p.x, p.y, p.z, p.w);
}

/// The identity matrix applied to a vector gives the vector back.
pub proof fn lemma_identity_apply_vector<P: Scalar>(v: Vector3<P>)
    ensures
        apply_vec_s(mat4_identity_s::<P>(), v) == v,
{
    lemma_unit_sum_left(v.x, v.y, v.z, v.w);
}

/// A translation moves a well-formed point by its offsets and keeps the
/// weight.
pub proof fn lemma_translation_moves_point<P: Scalar>(x: P, y: P, z: P, p: Point3<P>)
    requires
        p.w == P::one_s(),
    ensures
        apply_point_s(translation_s(x, y, z), p).x == P::add_s(p.x, x),
        apply_point_s(translation_s(x, y, z), p).y == P::add_s(p.y, y),
        apply_point_s(translation_s(x, y, z), p).z == P::add_s(p.z, z),
        apply_point_s(translation_s(x, y, z), p).w == p.w,
{
    P::law_mul_one(p.x);
    P::law_mul_one(p.y);
    P::law_mul_one(p.z);
    P::law_mul_one(p.w);
    P::law_mul_one(x);
    P::law_mul_one(y);
    P::law_mul_one(z);
    P::law_mul_zero(p.x);
    P::law_mul_zero(p.y);
    P::law_mul_zero(p.z);
    P::law_add_zero(p.x);
    P::law_add_zero(p.y);
    P::law_add_zero(p.z);
    P::law_add_zero(p.w);
    P::law_add_zero(P::zero_s());
}

/// A scaling multiplies each axis of a tuple by its factor and keeps
/// the weight.
pub proof fn lemma_scaling_scales_point<P: Scalar>(x: P, y: P, z: P, p: Point3<P>)
    ensures
        apply_point_s(scaling_s(x, y, z), p).x == P::mul_s(x, p.x),
        apply_point_s(scaling_s(x, y, z), p).y == P::mul_s(y, p.y),
        apply_point_s(scaling_s(x, y, z), p).z == P::mul_s(z, p.z),
        apply_point_s(scaling_s(x, y, z), p).w == p.w,
{
    P::law_mul_one(p.w);
    P::law_mul_zero(p.x);
    P::law_mul_zero(p.y);
    P::law_mul_zero(p.z);
    P::law_mul_zero(p.w);
    P::law_add_zero(P::mul_s(x, p.x));
    P::law_add_zero(P::mul_s(y, p.y));
    P::law_add_zero(P::mul_s(z, p.z));
    P::law_add_zero(p.w);
    P::law_add_zero(P::zero_s());
}

/// A rotation about the X axis leaves the X component and the weight
/// alone and turns the Y and Z components through the angle's cosine
/// and sine.
pub proof fn lemma_rotation_x_action<P: Scalar>(radians: P, v: Vector3<P>)
    ensures
        apply_vec_s(rot_x_s(radians), v).x == v.x,
        apply_vec_s(rot_x_s(radians), v).y == P::add_s(
            P::mul_s(P::cos_s(radians), v.y),
            P::mul_s(P::neg_s(P::sin_s(radians)), v.z),
        ),
        apply_vec_s(rot_x_s(radians), v).z == P::add_s(
            P::mul_s(P::sin_s(radians), v.y),
            P::mul_s(P::cos_s(radians), v.z),
        ),
        apply_vec_s(rot_x_s(radians), v).w == v.w,
{
    let c = P::cos_s(radians);
    let s = P::sin_s(radians);
    P::law_mul_one(v.x);
    P::law_mul_one(v.w);
    P::law_mul_zero(v.x);
    P::law_mul_zero(v.y);
    P::law_mul_zero(v.z);
    P::law_mul_zero(v.w);
    P::law_add_zero(v.x);
    P::law_add_zero(v.w);
    P::law_add_zero(P::zero_s());
    P::law_add_zero(P::mul_s(c, v.y));
    P::law_add_zero(P::mul_s(s, v.y));
    P::law_add_zero(P::add_s(P::mul_s(c, v.y), P::mul_s(P::neg_s(s), v.z)));
    P::law_add_zero(P::add_s(P::mul_s(s, v.y), P::mul_s(c, v.z)));
}

/// Translation has no effect on a free vector: with weight zero the
/// offsets are multiplied away.
pub proof fn lemma_translation_fixes_vector<P: Scalar>(x: P, y: P, z: P, v: Vector3<P>)
    requires
        v.w == P::zero_s(),
    ensures
        apply_vec_s(translation_s(x, y, z), v) == v,
{
    P::law_mul_one(v.x);
    P::law_mul_one(v.y);
    P::law_mul_one(v.z);
    P::law_mul_one(v.w);
    P::law_mul_zero(v.x);
    P::law_mul_zero(v.y);
    P::law_mul_zero(v.z);
    P::law_mul_zero(v.w);
    P::law_mul_zero(x);
    P::law_mul_zero(y);
    P::law_mul_zero(z);
    P::law_add_zero(v.x);
    P::law_add_zero(v.y);
    P::law_add_zero(v.z);
    P::law_add_zero(v.w);
    P::law_add_zero(P::zero_s());
}

} // verus!
