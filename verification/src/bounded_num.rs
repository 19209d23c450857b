//! The bounded value: one scalar tagged with two marker bounds.

use vstd::prelude::*;
use core::marker::PhantomData;
use crate::representable::{Representable, Scalar};

verus! {

/// Whether `v` lies in the inclusive range `[lo, hi]`: the check that guards
/// every construction of a bounded value.
pub open spec fn in_bounds(v: int, lo: int, hi: int) -> bool {
    lo <= v && v <= hi
}

/// Relies on core::marker::PhantomData being a unit type: cloning its only
/// value yields that value. Needed so that duplicating a bounded value can
/// duplicate its zero-sized bounds tag.
pub assume_specification<T>[ <PhantomData<T> as Clone>::clone ](v: &PhantomData<T>) -> (r:
    PhantomData<T>)
    where
        T: core::marker::PointeeSized,
    ensures
        r == *v,
;

/// Raised only by checked construction.
#[derive(Clone, Copy, Debug, PartialEq, Eq)]
pub enum OutOfBoundsError {
    TooSmall,
    TooLarge,
}

/// A scalar of type `T` statically tagged with the inclusive range
/// `[Min, Max]`. The markers have no runtime footprint; the range invariant
/// is the well-formedness predicate `wf`, established by `try_new` and by
/// the precondition of `unchecked_new`, and preserved by every operation.
#[derive(Clone, Copy, Debug, PartialEq, Eq)]
pub struct BoundedNum<T, Min, Max> {
    value: T,
    bounds: PhantomData<(Min, Max)>,
}

impl<T: Scalar, Min: Representable<T>, Max: Representable<T>> BoundedNum<T, Min, Max> {
    /// The integer the wrapped scalar holds.
    pub closed spec fn to_math(self) -> int {
        self.value.to_math()
    }

    /// The range invariant: the wrapped scalar lies within the declared bounds.
    pub open spec fn wf(self) -> bool {
        in_bounds(self.to_math(), Min::value_math(), Max::value_math())
    }

    /// Checked construction. Succeeds exactly when `t` lies within the
    /// declared range; fails `TooSmall` exactly when `t` is below the lower
    /// bound, and `TooLarge` exactly when `t` is above the upper bound (and
    /// not below the lower, which is checked first).
    pub fn try_new(t: T) -> (r: Result<Self, OutOfBoundsError>)
        requires
            T::type_min() <= Min::value_math() <= T::type_max(),
            T::type_min() <= Max::value_math() <= T::type_max(),
        ensures
            match r {
                Ok(b) => in_bounds(t.to_math(), Min::value_math(), Max::value_math())
                    && b.to_math() == t.to_math() && b.wf(),
                Err(e) => !in_bounds(t.to_math(), Min::value_math(), Max::value_math()) && (e
                    == OutOfBoundsError::TooSmall <==> t.to_math() < Min::value_math()) && (e
                    == OutOfBoundsError::TooLarge <==> (t.to_math() > Max::value_math()
                    && t.to_math() >= Min::value_math())),
            },
    {
        let min_value: T = Min::value();
        let max_value: T = Max::value();
        if t.lt(min_value) {
            Err(OutOfBoundsError::TooSmall)
        } else if max_value.lt(t) {
            Err(OutOfBoundsError::TooLarge)
        } else {
            Ok(BoundedNum { value: t, bounds: PhantomData })
        }
    }

    /// Unchecked construction: the range proof is the caller's obligation,
    /// stated as the precondition. Meant for callers that have already
    /// discharged it, as the conversion and arithmetic operations have.
    pub fn unchecked_new(t: T) -> (r: Self)
        requires
            in_bounds(t.to_math(), Min::value_math(), Max::value_math()),
        ensures
            r.to_math() == t.to_math(),
            r.wf(),
    {
        BoundedNum { value: t, bounds: PhantomData }
    }

    /// Extracts the raw scalar; no check.
    pub fn inner(self) -> (r: T)
        ensures
            r.to_math() == self.to_math(),
    {
        self.value
    }
}

/// Round trip: the raw scalar taken out of a well-formed bounded value
/// satisfies exactly the in-bounds check of checked construction, so
/// rebuilding from it succeeds and preserves the scalar.
pub proof fn lemma_round_trip<T: Scalar, Min: Representable<T>, Max: Representable<T>>(
    b: BoundedNum<T, Min, Max>,
    raw: T,
)
    requires
        b.wf(),
        raw.to_math() == b.to_math(),
    ensures
        in_bounds(raw.to_math(), Min::value_math(), Max::value_math()),
{
}

/// Boundary inclusivity: both endpoints of a nonempty range pass the
/// in-bounds check, and the integers one below the lower endpoint and one
/// above the upper endpoint both fail it.
pub proof fn lemma_boundary_inclusive(lo: int, hi: int)
    requires
        lo <= hi,
    ensures
        in_bounds(lo, lo, hi),
        in_bounds(hi, lo, hi),
        !in_bounds(lo - 1, lo, hi),
        !in_bounds(hi + 1, lo, hi),
{
}

} // verus!
