//! Conversion between differently bounded or typed bounded values: lossless
//! widening, justified by a static range-inclusion proof, and fallible
//! narrowing, re-validated at runtime.

use vstd::prelude::*;
use crate::bounded_num::{in_bounds, BoundedNum, OutOfBoundsError};
use crate::representable::{Representable, Scalar};

verus! {

/// Error of a fallible element conversion: the source value has no
/// representation in the destination type.
#[derive(Clone, Copy, Debug, PartialEq, Eq)]
pub struct ScalarConversionError;

/// Raised only by fallible narrowing: either the element conversion itself
/// failed, or the converted value fell outside the new range.
#[derive(Clone, Copy, Debug, PartialEq, Eq)]
pub enum TryIntoError<E> {
    InnerConversionError(E),
    TooSmall,
    TooLarge,
}

impl<E> From<OutOfBoundsError> for TryIntoError<E> {
    fn from(value: OutOfBoundsError) -> Self {
        match value {
            OutOfBoundsError::TooSmall => Self::TooSmall,
            OutOfBoundsError::TooLarge => Self::TooLarge,
        }
    }
}

impl<E> vstd::std_specs::convert::FromSpecImpl<OutOfBoundsError> for TryIntoError<E> {
    open spec fn obeys_from_spec() -> bool {
        true
    }

    open spec fn from_spec(value: OutOfBoundsError) -> Self {
        match value {
            OutOfBoundsError::TooSmall => Self::TooSmall,
            OutOfBoundsError::TooLarge => Self::TooLarge,
        }
    }
}

/// A lossless element conversion: every value of `Self` has an exactly equal
/// value in `T2`.
pub trait WidenInto<T2: Scalar>: Scalar {
    /// Converts without loss.
    fn widen_into(self) -> (r: T2)
        ensures
            r.to_math() == self.to_math(),
    ;
}

impl<T: Scalar> WidenInto<T> for T {
    fn widen_into(self) -> (r: T) {
        self
    }
}

impl WidenInto<u16> for u8 {
    fn widen_into(self) -> (r: u16) {
        self as u16
    }
}

impl WidenInto<u32> for u8 {
    fn widen_into(self) -> (r: u32) {
        self as u32
    }
}

impl WidenInto<u64> for u8 {
    fn widen_into(self) -> (r: u64) {
        self as u64
    }
}

impl WidenInto<u128> for u8 {
    fn widen_into(self) -> (r: u128) {
        self as u128
    }
}

impl WidenInto<usize> for u8 {
    fn widen_into(self) -> (r: usize) {
        self as usize
    }
}

impl WidenInto<u32> for u16 {
    fn widen_into(self) -> (r: u32) {
        self as u32
    }
}

impl WidenInto<u64> for u16 {
    fn widen_into(self) -> (r: u64) {
        self as u64
    }
}

impl WidenInto<u128> for u16 {
    fn widen_into(self) -> (r: u128) {
        self as u128
    }
}

impl WidenInto<usize> for u16 {
    fn widen_into(self) -> (r: usize) {
        self as usize
    }
}

impl WidenInto<u64> for u32 {
    fn widen_into(self) -> (r: u64) {
        self as u64
    }
}

impl WidenInto<u128> for u32 {
    fn widen_into(self) -> (r: u128) {
        self as u128
    }
}

impl WidenInto<u128> for u64 {
    fn widen_into(self) -> (r: u128) {
        self as u128
    }
}

impl WidenInto<i16> for i8 {
    fn widen_into(self) -> (r: i16) {
        self as i16
    }
}

impl WidenInto<i32> for i8 {
    fn widen_into(self) -> (r: i32) {
        self as i32
    }
}

impl WidenInto<i64> for i8 {
    fn widen_into(self) -> (r: i64) {
        self as i64
    }
}

impl WidenInto<i128> for i8 {
    fn widen_into(self) -> (r: i128) {
        self as i128
    }
}

impl WidenInto<isize> for i8 {
    fn widen_into(self) -> (r: isize) {
        self as isize
    }
}

impl WidenInto<i32> for i16 {
    fn widen_into(self) -> (r: i32) {
        self as i32
    }
}

impl WidenInto<i64> for i16 {
    fn widen_into(self) -> (r: i64) {
        self as i64
    }
}

impl WidenInto<i128> for i16 {
    fn widen_into(self) -> (r: i128) {
        self as i128
    }
}

impl WidenInto<isize> for i16 {
    fn widen_into(self) -> (r: isize) {
        self as isize
    }
}

impl WidenInto<i64> for i32 {
    fn widen_into(self) -> (r: i64) {
        self as i64
    }
}

impl WidenInto<i128> for i32 {
    fn widen_into(self) -> (r: i128) {
        self as i128
    }
}

impl WidenInto<i128> for i64 {
    fn widen_into(self) -> (r: i128) {
        self as i128
    }
}

impl WidenInto<i16> for u8 {
    fn widen_into(self) -> (r: i16) {
        self as i16
    }
}

impl WidenInto<i32> for u8 {
    fn widen_into(self) -> (r: i32) {
        self as i32
    }
}

impl WidenInto<i64> for u8 {
    fn widen_into(self) -> (r: i64) {
        self as i64
    }
}

impl WidenInto<i128> for u8 {
    fn widen_into(self) -> (r: i128) {
        self as i128
    }
}

impl WidenInto<i32> for u16 {
    fn widen_into(self) -> (r: i32) {
        self as i32
    }
}

impl WidenInto<i64> for u16 {
    fn widen_into(self) -> (r: i64) {
        self as i64
    }
}

impl WidenInto<i128> for u16 {
    fn widen_into(self) -> (r: i128) {
        self as i128
    }
}

impl WidenInto<i64> for u32 {
    fn widen_into(self) -> (r: i64) {
        self as i64
    }
}

impl WidenInto<i128> for u32 {
    fn widen_into(self) -> (r: i128) {
        self as i128
    }
}

impl WidenInto<i128> for u64 {
    fn widen_into(self) -> (r: i128) {
        self as i128
    }
}

/// A fallible element conversion: succeeds, preserving the value exactly,
/// precisely when the value fits the destination type's range.
pub trait NarrowInto<T2: Scalar>: Scalar {
    /// Converts, or reports that the value has no `T2` representation.
    fn narrow_into(self) -> (r: Result<T2, ScalarConversionError>)
        ensures
            match r {
                Ok(v) => v.to_math() == self.to_math() && T2::type_min() <= self.to_math()
                    <= T2::type_max(),
                Err(_) => !(T2::type_min() <= self.to_math() && self.to_math() <= T2::type_max()),
            },
    ;
}

impl<T: Scalar> NarrowInto<T> for T {
    fn narrow_into(self) -> (r: Result<T, ScalarConversionError>) {
        proof {
            self.in_type_range();
        }
        Ok(self)
    }
}

impl NarrowInto<i8> for u8 {
    fn narrow_into(self) -> (r: Result<i8, ScalarConversionError>) {
        if self <= 127 {
            Ok(self as i8)
        } else {
            Err(ScalarConversionError)
        }
    }
}

impl NarrowInto<u8> for i8 {
    fn narrow_into(self) -> (r: Result<u8, ScalarConversionError>) {
        if self >= 0 {
            Ok(self as u8)
        } else {
            Err(ScalarConversionError)
        }
    }
}

impl NarrowInto<i16> for u16 {
    fn narrow_into(self) -> (r: Result<i16, ScalarConversionError>) {
        if self <= 32767 {
            Ok(self as i16)
        } else {
            Err(ScalarConversionError)
        }
    }
}

impl NarrowInto<u16> for i16 {
    fn narrow_into(self) -> (r: Result<u16, ScalarConversionError>) {
        if self >= 0 {
            Ok(self as u16)
        } else {
            Err(ScalarConversionError)
        }
    }
}

impl NarrowInto<i32> for u32 {
    fn narrow_into(self) -> (r: Result<i32, ScalarConversionError>) {
        if self <= 2147483647 {
            Ok(self as i32)
        } else {
            Err(ScalarConversionError)
        }
    }
}

impl NarrowInto<u32> for i32 {
    fn narrow_into(self) -> (r: Result<u32, ScalarConversionError>) {
        if self >= 0 {
            Ok(self as u32)
        } else {
            Err(ScalarConversionError)
        }
    }
}

impl NarrowInto<i64> for u64 {
    fn narrow_into(self) -> (r: Result<i64, ScalarConversionError>) {
        if self <= 9223372036854775807 {
            Ok(self as i64)
        } else {
            Err(ScalarConversionError)
        }
    }
}

impl NarrowInto<u64> for i64 {
    fn narrow_into(self) -> (r: Result<u64, ScalarConversionError>) {
        if self >= 0 {
            Ok(self as u64)
        } else {
            Err(ScalarConversionError)
        }
    }
}

impl NarrowInto<i128> for u128 {
    fn narrow_into(self) -> (r: Result<i128, ScalarConversionError>) {
        if self <= 170141183460469231731687303715884105727 {
            Ok(self as i128)
        } else {
            Err(ScalarConversionError)
        }
    }
}

impl NarrowInto<u128> for i128 {
    fn narrow_into(self) -> (r: Result<u128, ScalarConversionError>) {
        if self >= 0 {
            Ok(self as u128)
        } else {
            Err(ScalarConversionError)
        }
    }
}

impl NarrowInto<u8> for u16 {
    fn narrow_into(self) -> (r: Result<u8, ScalarConversionError>) {
        if self <= 255 {
            Ok(self as u8)
        } else {
            Err(ScalarConversionError)
        }
    }
}

impl NarrowInto<u16> for u32 {
    fn narrow_into(self) -> (r: Result<u16, ScalarConversionError>) {
        if self <= 65535 {
            Ok(self as u16)
        } else {
            Err(ScalarConversionError)
        }
    }
}

impl NarrowInto<u32> for u64 {
    fn narrow_into(self) -> (r: Result<u32, ScalarConversionError>) {
        if self <= 4294967295 {
            Ok(self as u32)
        } else {
            Err(ScalarConversionError)
        }
    }
}

impl NarrowInto<u64> for u128 {
    fn narrow_into(self) -> (r: Result<u64, ScalarConversionError>) {
        if self <= 18446744073709551615 {
            Ok(self as u64)
        } else {
            Err(ScalarConversionError)
        }
    }
}

impl NarrowInto<i8> for i16 {
    fn narrow_into(self) -> (r: Result<i8, ScalarConversionError>) {
        if -128 <= self && self <= 127 {
            Ok(self as i8)
        } else {
            Err(ScalarConversionError)
        }
    }
}

impl NarrowInto<i16> for i32 {
    fn narrow_into(self) -> (r: Result<i16, ScalarConversionError>) {
        if -32768 <= self && self <= 32767 {
            Ok(self as i16)
        } else {
            Err(ScalarConversionError)
        }
    }
}

impl NarrowInto<i32> for i64 {
    fn narrow_into(self) -> (r: Result<i32, ScalarConversionError>) {
        if -2147483648 <= self && self <= 2147483647 {
            Ok(self as i32)
        } else {
            Err(ScalarConversionError)
        }
    }
}

impl NarrowInto<i64> for i128 {
    fn narrow_into(self) -> (r: Result<i64, ScalarConversionError>) {
        if -9223372036854775808 <= self && self <= 9223372036854775807 {
            Ok(self as i64)
        } else {
            Err(ScalarConversionError)
        }
    }
}

impl<T1: Scalar, Min1: Representable<T1>, Max1: Representable<T1>> BoundedNum<T1, Min1, Max1> {
    /// Lossless widening into a range that contains the source range. The
    /// runtime check is skipped: the static proof that `Min2 <= Min1` and
    /// `Max2 >= Max1`, together with the source invariant, puts the value in
    /// the destination range.
    pub fn into<T2, Min2, Max2>(self) -> (r: BoundedNum<T2, Min2, Max2>) where
        T1: WidenInto<T2>,
        T2: Scalar,
        Min2: Representable<T2>,
        Max2: Representable<T2>,

        requires
            self.wf(),
            Min2::value_math() <= Min1::value_math(),
            Max2::value_math() >= Max1::value_math(),
        ensures
            r.to_math() == self.to_math(),
            r.wf(),
    {
        let value: T2 = self.inner().widen_into();
        BoundedNum::unchecked_new(value)
    }

    /// Fallible narrowing. The element conversion runs first; on failure the
    /// element error is reported. Otherwise the converted value is checked
    /// against the new bounds at runtime, and a bound violation is reported
    /// as `TooSmall` or `TooLarge`.
    pub fn try_into<T2, Min2, Max2>(self) -> (r: Result<
        BoundedNum<T2, Min2, Max2>,
        TryIntoError<ScalarConversionError>,
    >) where
        T1: NarrowInto<T2>,
        T2: Scalar,
        Min2: Representable<T2>,
        Max2: Representable<T2>,

        requires
            T2::type_min() <= Min2::value_math() <= T2::type_max(),
            T2::type_min() <= Max2::value_math() <= T2::type_max(),
        ensures
            match r {
                Ok(b) => T2::type_min() <= self.to_math() <= T2::type_max() && in_bounds(
                    self.to_math(),
                    Min2::value_math(),
                    Max2::value_math(),
                ) && b.to_math() == self.to_math() && b.wf(),
                Err(TryIntoError::InnerConversionError(_)) => !(T2::type_min() <= self.to_math()
                    && self.to_math() <= T2::type_max()),
                Err(TryIntoError::TooSmall) => T2::type_min() <= self.to_math() <= T2::type_max()
                    && self.to_math() < Min2::value_math(),
                Err(TryIntoError::TooLarge) => T2::type_min() <= self.to_math() <= T2::type_max()
                    && self.to_math() > Max2::value_math() && self.to_math()
                    >= Min2::value_math(),
            },
    {
        let value: T2 = match self.inner().narrow_into() {
            Ok(v) => v,
            Err(e) => {
                return Err(TryIntoError::InnerConversionError(e));
            },
        };
        match BoundedNum::<T2, Min2, Max2>::try_new(value) {
            Ok(b) => Ok(b),
            Err(e) => Err(TryIntoError::from(e)),
        }
    }
}

} // verus!
