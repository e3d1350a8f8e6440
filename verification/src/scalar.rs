//! The numeric scalar abstraction that the whole kernel is generic over.
//!
//! A scalar offers the ring-like operations `add`, `sub`, `mul`, `div` and
//! `neg`, the constants `zero` and `one`, an order test, an approximate
//! ("within epsilon") equality, and the three non-algebraic operations
//! `sqrt`, `sin` and `cos` that transforms and magnitudes need.  Each
//! executable operation is pinned to a specification function of the
//! implementing type, and a small set of laws (proved by every verified
//! implementation) gives callers the algebraic facts the kernel's proofs
//! rest on.
//!
//! The crate verifies an `i64` instance, whose arithmetic wraps and whose
//! `sqrt`, `sin` and `cos` truncate the real result toward zero, exactly
//! as casting the corresponding floating-point result to an integer would.
//! Floating-point scalars cannot be verified, but any unverified caller
//! may implement the trait for its own scalar type (for example a wrapper
//! around a 64-bit float with epsilon 1e-4) and use the kernel unchanged.

use vstd::prelude::*;

verus! {

/// A numeric scalar the geometry kernel can compute with.
///
/// The `*_s` specification functions say what each executable operation
/// returns; the `law_*` lemmas are the algebraic facts every verified
/// implementation must prove and every generic proof may use.
pub trait Scalar: Sized + Copy {
    /// What `add` returns.
    spec fn add_s(a: Self, b: Self) -> Self;

    /// What `sub` returns.
    spec fn sub_s(a: Self, b: Self) -> Self;

    /// What `mul` returns.
    spec fn mul_s(a: Self, b: Self) -> Self;

    /// What `div` returns.
    spec fn div_s(a: Self, b: Self) -> Self;

    /// What `neg` returns.
    spec fn neg_s(a: Self) -> Self;

    /// The additive unit.
    spec fn zero_s() -> Self;

    /// The multiplicative unit.
    spec fn one_s() -> Self;

    /// What `lt` returns: a strict order test.
    spec fn lt_s(a: Self, b: Self) -> bool;

    /// What `ge` returns: a non-strict reversed order test.
    spec fn ge_s(a: Self, b: Self) -> bool;

    /// What `almost_eq` returns: equality up to the type's epsilon.
    spec fn almost_eq_s(a: Self, b: Self) -> bool;

    /// What `sqrt` returns.
    spec fn sqrt_s(a: Self) -> Self;

    /// What `sin` returns.
    spec fn sin_s(a: Self) -> Self;

    /// What `cos` returns.
    spec fn cos_s(a: Self) -> Self;

    /// Addition.
    fn add(self, rhs: Self) -> (r: Self)
        ensures
            r == Self::add_s(self, rhs),
    ;

    /// Subtraction.
    fn sub(self, rhs: Self) -> (r: Self)
        ensures
            r == Self::sub_s(self, rhs),
    ;

    /// Multiplication.
    fn mul(self, rhs: Self) -> (r: Self)
        ensures
            r == Self::mul_s(self, rhs),
    ;

    /// Division.
    fn div(self, rhs: Self) -> (r: Self)
        ensures
            r == Self::div_s(self, rhs),
    ;

    /// Negation.
    fn neg(self) -> (r: Self)
        ensures
            r == Self::neg_s(self),
    ;

    /// The additive unit.
    fn zero() -> (r: Self)
        ensures
            r == Self::zero_s(),
    ;

    /// The multiplicative unit.
    fn one() -> (r: Self)
        ensures
            r == Self::one_s(),
    ;

    /// Strict order test, `self < rhs`.
    fn lt(self, rhs: Self) -> (r: bool)
        ensures
            r == Self::lt_s(self, rhs),
    ;

    /// Non-strict order test, `self >= rhs`.
    fn ge(self, rhs: Self) -> (r: bool)
        ensures
            r == Self::ge_s(self, rhs),
    ;

    /// Exact equality of scalar values.
    fn eq_exact(self, rhs: Self) -> (r: bool)
        ensures
            r == (self == rhs),
    ;

    /// Equality up to the type's epsilon.
    fn almost_eq(self, rhs: Self) -> (r: bool)
        ensures
            r == Self::almost_eq_s(self, rhs),
    ;

    /// Square root.
    fn sqrt(self) -> (r: Self)
        ensures
            r == Self::sqrt_s(self),
    ;

    /// Sine of an angle in radians.
    fn sin(self) -> (r: Self)
        ensures
            r == Self::sin_s(self),
    ;

    /// Cosine of an angle in radians.
    fn cos(self) -> (r: Self)
        ensures
            r == Self::cos_s(self),
    ;

    /// Zero is the unit of addition, on either side.
    proof fn law_add_zero(a: Self)
        ensures
            Self::add_s(a, Self::zero_s()) == a,
            Self::add_s(Self::zero_s(), a) == a,
    ;

    /// One is the unit of multiplication, on either side.
    proof fn law_mul_one(a: Self)
        ensures
            Self::mul_s(a, Self::one_s()) == a,
            Self::mul_s(Self::one_s(), a) == a,
    ;

    /// Zero absorbs multiplication, on either side.
    proof fn law_mul_zero(a: Self)
        ensures
            Self::mul_s(a, Self::zero_s()) == Self::zero_s(),
            Self::mul_s(Self::zero_s(), a) == Self::zero_s(),
    ;

    /// Subtracting a value from itself gives zero.
    proof fn law_sub_self(a: Self)
        ensures
            Self::sub_s(a, a) == Self::zero_s(),
    ;

    /// Subtracting zero changes nothing.
    proof fn law_sub_zero(a: Self)
        ensures
            Self::sub_s(a, Self::zero_s()) == a,
    ;

    /// The strict order is irreflexive.
    proof fn law_lt_irrefl(a: Self)
        ensures
            !Self::lt_s(a, a),
    ;

    /// The strict order is transitive.
    proof fn law_lt_trans(a: Self, b: Self, c: Self)
        requires
            Self::lt_s(a, b),
            Self::lt_s(b, c),
        ensures
            Self::lt_s(a, c),
    ;

    /// Approximate equality is reflexive.
    proof fn law_almost_eq_refl(a: Self)
        ensures
            Self::almost_eq_s(a, a),
    ;
}

impl Scalar for i64 {
    open spec fn add_s(a: i64, b: i64) -> i64 {
        vstd::wrapping::i64_specs::wrapping_add(a, b)
    }

    open spec fn sub_s(a: i64, b: i64) -> i64 {
        vstd::wrapping::i64_specs::wrapping_sub(a, b)
    }

    open spec fn mul_s(a: i64, b: i64) -> i64 {
        vstd::wrapping::i64_specs::wrapping_mul(a, b)
    }

    open spec fn div_s(a: i64, b: i64) -> i64 {
        if b == 0 {
            0
        } else if a == i64::MIN && b == -1 {
            i64::MIN
        } else {
            match a.checked_div(b) {
                Some(q) => q,
                None => 0,
            }
        }
    }

    open spec fn neg_s(a: i64) -> i64 {
        vstd::wrapping::i64_specs::wrapping_sub(0, a)
    }

    open spec fn zero_s() -> i64 {
        0
    }

    open spec fn one_s() -> i64 {
        1
    }

    open spec fn lt_s(a: i64, b: i64) -> bool {
        a < b
    }

    open spec fn ge_s(a: i64, b: i64) -> bool {
        a >= b
    }

    open spec fn almost_eq_s(a: i64, b: i64) -> bool {
        a == b
    }

    open spec fn sqrt_s(a: i64) -> i64 {
        if a < 0 {
            0
        } else {
            isqrt_spec(a as nat) as i64
        }
    }

    open spec fn sin_s(a: i64) -> i64 {
        0
    }

    open spec fn cos_s(a: i64) -> i64 {
        if a == 0 {
            1
        } else {
            0
        }
    }

    fn add(self, rhs: i64) -> i64 {
        self.wrapping_add(rhs)
    }

    fn sub(self, rhs: i64) -> i64 {
        self.wrapping_sub(rhs)
    }

    fn mul(self, rhs: i64) -> i64 {
        self.wrapping_mul(rhs)
    }

    fn div(self, rhs: i64) -> i64 {
        if rhs == 0 {
            0
        } else if self == i64::MIN && rhs == -1 {
            i64::MIN
        } else {
            match self.checked_div(rhs) {
                Some(q) => q,
                None => 0,
            }
        }
    }

    fn neg(self) -> i64 {
        0i64.wrapping_sub(self)
    }

    fn zero() -> i64 {
        0
    }

    fn one() -> i64 {
        1
    }

    fn lt(self, rhs: i64) -> bool {
        self < rhs
    }

    fn ge(self, rhs: i64) -> bool {
        self >= rhs
    }

    fn eq_exact(self, rhs: i64) -> bool {
        self == rhs
    }

    fn almost_eq(self, rhs: i64) -> bool {
        self == rhs
    }

    fn sqrt(self) -> i64 {
        if self < 0 {
            0
        } else {
            isqrt_exec(self)
        }
    }

    fn sin(self) -> i64 {
        0
    }

    fn cos(self) -> i64 {
        if self == 0 {
            1
        } else {
            0
        }
    }

    proof fn law_add_zero(a: i64) {
    }

    proof fn law_mul_one(a: i64) {
        lemma_signed_crop_in_range(a as int);
        lemma_signed_crop_in_range(1 * a);
    }

    proof fn law_mul_zero(a: i64) {
        lemma_signed_crop_in_range(0);
    }

    proof fn law_sub_self(a: i64) {
    }

    proof fn law_sub_zero(a: i64) {
    }

    proof fn law_lt_irrefl(a: i64) {
    }

    proof fn law_lt_trans(a: i64, b: i64, c: i64) {
    }

    proof fn law_almost_eq_refl(a: i64) {
    }
}

/// `signed_crop` leaves a value that already fits in `i64` unchanged.
proof fn lemma_signed_crop_in_range(x: int)
    requires
        i64::MIN <= x <= i64::MAX,
    ensures
        vstd::wrapping::i64_specs::signed_crop(x) == x,
{
    let range = 0x1_0000_0000_0000_0000int;
    if x >= 0 {
        vstd::arithmetic::div_mod::lemma_small_mod(x as nat, range as nat);
    } else {
        vstd::arithmetic::div_mod::lemma_mod_add_multiples_vanish(x, range);
        vstd::arithmetic::div_mod::lemma_small_mod((x + range) as nat, range as nat);
    }
}

/// The integer square root: the greatest `r` with `r * r <= n`.
pub open spec fn isqrt_spec(n: nat) -> nat
    decreases n,
{
    if n == 0 {
        0
    } else {
        let p = isqrt_spec((n - 1) as nat);
        if (p + 1) * (p + 1) <= n {
            p + 1
        } else {
            p
        }
    }
}

/// `isqrt_spec` is exactly characterised by bracketing `n` between
/// consecutive squares.
pub proof fn lemma_isqrt_bounds(n: nat)
    ensures
        isqrt_spec(n) * isqrt_spec(n) <= n,
        n < (isqrt_spec(n) + 1) * (isqrt_spec(n) + 1),
    decreases n,
{
    if n == 0 {
        assert(isqrt_spec(0) == 0);
        assert((isqrt_spec(n) + 1) * (isqrt_spec(n) + 1) == 1) by (nonlinear_arith)
            requires
                isqrt_spec(n) == 0,
        ;
    } else {
        lemma_isqrt_bounds((n - 1) as nat);
        let p = isqrt_spec((n - 1) as nat);
        assert(isqrt_spec(n) == if (p + 1) * (p + 1) <= n {
            p + 1
        } else {
            p
        });
        if (p + 1) * (p + 1) <= n {
            assert((p + 1) * (p + 1) < (p + 2) * (p + 2)) by (nonlinear_arith);
            assert((isqrt_spec(n) + 1) * (isqrt_spec(n) + 1) == (p + 2) * (p + 2));
        } else {
            assert((isqrt_spec(n) + 1) * (isqrt_spec(n) + 1) == (p + 1) * (p + 1));
        }
    }
}

/// Only one value is bracketed that way, so the bounds pin the root down.
pub proof fn lemma_isqrt_unique(n: nat, r: nat)
    requires
        r * r <= n,
        n < (r + 1) * (r + 1),
    ensures
        r == isqrt_spec(n),
{
    lemma_isqrt_bounds(n);
    let s = isqrt_spec(n);
    if r < s {
        assert((r + 1) * (r + 1) <= s * s) by (nonlinear_arith)
            requires
                r + 1 <= s,
        ;
    }
    if s < r {
        assert((s + 1) * (s + 1) <= r * r) by (nonlinear_arith)
            requires
                s + 1 <= r,
        ;
    }
}

/// Binary search for the integer square root of a nonnegative `i64`.
fn isqrt_exec(n: i64) -> (r: i64)
    requires
        n >= 0,
    ensures
        r == isqrt_spec(n as nat) as i64,
{
    let nu: u64 = n as u64;
    let mut lo: u64 = 0;
    let mut hi: u64 = 3037000500u64;
    proof {
        assert(3037000500u64 * 3037000500u64 > i64::MAX) by (nonlinear_arith);
    }
    while hi - lo > 1
        invariant
            lo < hi <= 3037000500,
            nu <= i64::MAX as u64,
            lo * lo <= nu,
            nu < hi * hi,
        decreases hi - lo,
    {
        let mid: u64 = lo + (hi - lo) / 2;
        proof {
            assert(mid * mid <= 3037000500u64 * 3037000500u64) by (nonlinear_arith)
                requires
                    mid <= 3037000500u64,
            ;
        }
        if mid * mid <= nu {
            lo = mid;
        } else {
            hi = mid;
        }
    }
    proof {
        lemma_isqrt_unique(nu as nat, lo as nat);
    }
    lo as i64
}

} // verus!
