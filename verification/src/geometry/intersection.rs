//! Intersections between rays and shapes, and the visible-hit rule: among
//! the recorded intersections, the one nearest along the ray that is not
//! behind its origin.

use vstd::prelude::*;

use crate::scalar::Scalar;

verus! {

/// A collection of intersections, in the order they were recorded.
pub type IntxnVec<P, S> = Vec<Intxn<P, S>>;

/// One intersection: the parameter `t` along the ray, and the shape that
/// was intersected.  Equality looks at `t` alone.
#[derive(Clone, Copy, Debug)]
pub struct Intxn<P, S> {
    /// The distance along the ray, as the ray's parameter.
    pub t: P,
    /// The shape the ray intersected.
    pub object: S,
}

impl<P: Scalar, S> Intxn<P, S> {
    /// An intersection at parameter `t` with the given shape.
    pub fn intersection(t: P, object: S) -> (r: Self)
        ensures
            r.t == t,
            r.object == object,
    {
        Intxn { t, object }
    }
}

/// Common construction of intersections.
pub trait Intersection<P: Scalar, S>: Sized {
    /// The parameter a constructed intersection records.
    spec fn t_s(r: Self) -> P;

    /// The shape a constructed intersection records.
    spec fn object_s(r: Self) -> S;

    /// An intersection at parameter `t` with the given shape.
    fn intersection(t: P, object: S) -> (r: Self)
        ensures
            Self::t_s(r) == t,
            Self::object_s(r) == object,
    ;
}

impl<P: Scalar, S> Intersection<P, S> for Intxn<P, S> {
    open spec fn t_s(r: Self) -> P {
        r.t
    }

    open spec fn object_s(r: Self) -> S {
        r.object
    }

    fn intersection(t: P, object: S) -> Self {
        Intxn::intersection(t, object)
    }
}

impl<P: Scalar, S> PartialEq for Intxn<P, S> {
    fn eq(&self, other: &Self) -> (r: bool) {
        self.t.eq_exact(other.t)
    }
}

impl<P: Scalar, S> vstd::std_specs::cmp::PartialEqSpecImpl for Intxn<P, S> {
    open spec fn obeys_eq_spec() -> bool {
        true
    }

    open spec fn eq_spec(&self, other: &Self) -> bool {
        self.t == other.t
    }
}

/// Whether an intersection is visible: its parameter is not negative, so
/// it lies on or ahead of the ray's origin.
pub open spec fn visible_s<P: Scalar, S>(ixn: Intxn<P, S>) -> bool {
    P::ge_s(ixn.t, P::zero_s())
}

/// The visible hit in a collection of intersections: among the entries
/// with a nonnegative parameter, one with the smallest; none when no
/// entry is visible, and in particular none for an empty collection.
/// Under exact ties any of the tied entries may be returned.  The
/// absence of a visible hit is a normal outcome, not an error.
pub fn hit<P: Scalar, S: Copy>(xs: IntxnVec<P, S>) -> (r: Option<Intxn<P, S>>)
    ensures
        match r {
            Some(ixn) => {
                &&& exists|i: int| 0 <= i < xs@.len() && #[trigger] xs@[i] == ixn
                &&& visible_s(ixn)
                &&& forall|j: int|
                    0 <= j < xs@.len() && visible_s(#[trigger] xs@[j]) ==> !P::lt_s(
                        xs@[j].t,
                        ixn.t,
                    )
            },
            None => forall|j: int| 0 <= j < xs@.len() ==> !visible_s(#[trigger] xs@[j]),
        },
{
    if xs.len() == 0 {
        return None;
    }
    let mut min = xs[0].t;
    let mut id: usize = 0;
    let mut flag = false;
    let mut idx: usize = 0;
    while idx < xs.len()
        invariant
            xs@.len() >= 1,
            idx <= xs@.len(),
            id < xs@.len(),
            flag ==> visible_s(xs@[id as int]) && min == xs@[id as int].t,
            flag ==> forall|j: int|
                0 <= j < idx && visible_s(#[trigger] xs@[j]) ==> !P::lt_s(xs@[j].t, min),
            !flag ==> forall|j: int| 0 <= j < idx ==> !visible_s(#[trigger] xs@[j]),
        decreases xs@.len() - idx,
    {
        let t = xs[idx].t;
        if t.ge(P::zero()) {
            if !flag || t.lt(min) {
                proof {
                    if flag {
                        assert forall|j: int|
                            0 <= j < idx + 1 && visible_s(#[trigger] xs@[j]) implies !P::lt_s(
                            xs@[j].t,
                            t,
                        ) by {
                            P::law_lt_irrefl(t);
                            if j < idx && P::lt_s(xs@[j].t, t) {
                                P::law_lt_trans(xs@[j].t, t, min);
                            }
                        }
                    } else {
                        P::law_lt_irrefl(t);
                    }
                }
                min = t;
                id = idx;
            }
            flag = true;
        }
        idx = idx + 1;
    }
    if !flag {
        return None;
    }
    Some(xs[id])
}

} // verus!
