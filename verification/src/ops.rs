//! Arithmetic composing two bounded values into one whose range is the sum
//! of the operand ranges.

use vstd::prelude::*;
use crate::bounded_num::{in_bounds, BoundedNum};
use crate::representable::{Representable, Scalar};

verus! {

/// Interval arithmetic: if two values lie within their respective bounds,
/// their sum lies within the sum of the bounds. This is the proof that lets
/// addition build its result through the unchecked path.
pub proof fn lemma_interval_sum(v1: int, lo1: int, hi1: int, v2: int, lo2: int, hi2: int)
    requires
        in_bounds(v1, lo1, hi1),
        in_bounds(v2, lo2, hi2),
    ensures
        in_bounds(v1 + v2, lo1 + lo2, hi1 + hi2),
{
}

impl<T: Scalar, Min1: Representable<T>, Max1: Representable<T>> BoundedNum<T, Min1, Max1> {
    /// Adds two bounded values. The result's static bounds must be the sums
    /// of the operand bounds, and both sums must themselves be representable
    /// in `T` — which is exactly what rules out overflow of the raw
    /// addition — so no runtime range check is performed.
    pub fn add<Min2, Max2, MinS, MaxS>(self, rhs: BoundedNum<T, Min2, Max2>) -> (r: BoundedNum<
        T,
        MinS,
        MaxS,
    >) where
        Min2: Representable<T>,
        Max2: Representable<T>,
        MinS: Representable<T>,
        MaxS: Representable<T>,

        requires
            self.wf(),
            rhs.wf(),
            MinS::value_math() == Min1::value_math() + Min2::value_math(),
            MaxS::value_math() == Max1::value_math() + Max2::value_math(),
            T::type_min() <= MinS::value_math() <= T::type_max(),
            T::type_min() <= MaxS::value_math() <= T::type_max(),
        ensures
            r.to_math() == self.to_math() + rhs.to_math(),
            r.wf(),
    {
        proof {
            lemma_interval_sum(
                self.to_math(),
                Min1::value_math(),
                Max1::value_math(),
                rhs.to_math(),
                Min2::value_math(),
                Max2::value_math(),
            );
        }
        let result: T = self.inner().add_raw(rhs.inner());
        BoundedNum::unchecked_new(result)
    }
}

} // verus!
