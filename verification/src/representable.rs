//! Compile-time integer markers and their mapping to runtime scalar values.
//!
//! A marker type denotes one integer constant. `ToInt` maps a marker to the
//! constant as a runtime value of a concrete scalar type, and `Representable`
//! is the capability that the constant fits that type's representable range:
//! its `value` carries the range condition as a precondition, so a program
//! that pairs a marker with a too-narrow scalar type fails to verify rather
//! than to run.

use vstd::prelude::*;

verus! {

/// A marker type denoting the integer `N`.
#[derive(Clone, Copy, Debug, PartialEq, Eq)]
pub struct Pos<const N: u128>;

/// A marker type denoting the integer `-N`.
#[derive(Clone, Copy, Debug, PartialEq, Eq)]
pub struct Neg<const N: u128>;

/// A marker type denoting zero.
#[derive(Clone, Copy, Debug, PartialEq, Eq)]
pub struct Zero;

/// A numeric element type: a plain machine scalar together with its
/// mathematical meaning and true representable range.
pub trait Scalar: Copy + Sized {
    /// The mathematical integer this scalar holds.
    spec fn to_math(self) -> int;

    /// The smallest integer the type can represent.
    spec fn type_min() -> int;

    /// The largest integer the type can represent.
    spec fn type_max() -> int;

    /// Every value of the type lies within its representable range.
    proof fn in_type_range(self)
        ensures
            Self::type_min() <= self.to_math() <= Self::type_max(),
    ;

    /// Strict order on the held integers.
    fn lt(self, other: Self) -> (r: bool)
        ensures
            r == (self.to_math() < other.to_math()),
    ;

    /// The value holding the nonnegative integer `v`.
    fn from_unsigned(v: u128) -> (r: Self)
        requires
            v as int <= Self::type_max(),
        ensures
            r.to_math() == v as int,
    ;

    /// The value holding the nonpositive integer `-v`.
    fn from_negated(v: u128) -> (r: Self)
        requires
            Self::type_min() <= -(v as int),
        ensures
            r.to_math() == -(v as int),
    ;

    /// Exact addition; the sum must fit the type.
    fn add_raw(self, other: Self) -> (r: Self)
        requires
            Self::type_min() <= self.to_math() + other.to_math() <= Self::type_max(),
        ensures
            r.to_math() == self.to_math() + other.to_math(),
    ;
}

impl Scalar for u8 {
    open spec fn to_math(self) -> int {
        self as int
    }

    open spec fn type_min() -> int {
        0
    }

    open spec fn type_max() -> int {
        u8::MAX as int
    }

    proof fn in_type_range(self) {
    }

    fn lt(self, other: Self) -> (r: bool) {
        self < other
    }

    fn from_unsigned(v: u128) -> (r: Self) {
        v as u8
    }

    fn from_negated(v: u128) -> (r: Self) {
        0
    }

    fn add_raw(self, other: Self) -> (r: Self) {
        self + other
    }
}

impl Scalar for u16 {
    open spec fn to_math(self) -> int {
        self as int
    }

    open spec fn type_min() -> int {
        0
    }

    open spec fn type_max() -> int {
        u16::MAX as int
    }

    proof fn in_type_range(self) {
    }

    fn lt(self, other: Self) -> (r: bool) {
        self < other
    }

    fn from_unsigned(v: u128) -> (r: Self) {
        v as u16
    }

    fn from_negated(v: u128) -> (r: Self) {
        0
    }

    fn add_raw(self, other: Self) -> (r: Self) {
        self + other
    }
}

impl Scalar for u32 {
    open spec fn to_math(self) -> int {
        self as int
    }

    open spec fn type_min() -> int {
        0
    }

    open spec fn type_max() -> int {
        u32::MAX as int
    }

    proof fn in_type_range(self) {
    }

    fn lt(self, other: Self) -> (r: bool) {
        self < other
    }

    fn from_unsigned(v: u128) -> (r: Self) {
        v as u32
    }

    fn from_negated(v: u128) -> (r: Self) {
        0
    }

    fn add_raw(self, other: Self) -> (r: Self) {
        self + other
    }
}

impl Scalar for u64 {
    open spec fn to_math(self) -> int {
        self as int
    }

    open spec fn type_min() -> int {
        0
    }

    open spec fn type_max() -> int {
        u64::MAX as int
    }

    proof fn in_type_range(self) {
    }

    fn lt(self, other: Self) -> (r: bool) {
        self < other
    }

    fn from_unsigned(v: u128) -> (r: Self) {
        v as u64
    }

    fn from_negated(v: u128) -> (r: Self) {
        0
    }

    fn add_raw(self, other: Self) -> (r: Self) {
        self + other
    }
}

impl Scalar for u128 {
    open spec fn to_math(self) -> int {
        self as int
    }

    open spec fn type_min() -> int {
        0
    }

    open spec fn type_max() -> int {
        u128::MAX as int
    }

    proof fn in_type_range(self) {
    }

    fn lt(self, other: Self) -> (r: bool) {
        self < other
    }

    fn from_unsigned(v: u128) -> (r: Self) {
        v
    }

    fn from_negated(v: u128) -> (r: Self) {
        0
    }

    fn add_raw(self, other: Self) -> (r: Self) {
        self + other
    }
}

impl Scalar for usize {
    open spec fn to_math(self) -> int {
        self as int
    }

    open spec fn type_min() -> int {
        0
    }

    open spec fn type_max() -> int {
        usize::MAX as int
    }

    proof fn in_type_range(self) {
    }

    fn lt(self, other: Self) -> (r: bool) {
        self < other
    }

    fn from_unsigned(v: u128) -> (r: Self) {
        v as usize
    }

    fn from_negated(v: u128) -> (r: Self) {
        0
    }

    fn add_raw(self, other: Self) -> (r: Self) {
        self + other
    }
}

impl Scalar for i8 {
    open spec fn to_math(self) -> int {
        self as int
    }

    open spec fn type_min() -> int {
        i8::MIN as int
    }

    open spec fn type_max() -> int {
        i8::MAX as int
    }

    proof fn in_type_range(self) {
    }

    fn lt(self, other: Self) -> (r: bool) {
        self < other
    }

    fn from_unsigned(v: u128) -> (r: Self) {
        v as i8
    }

    fn from_negated(v: u128) -> (r: Self) {
        if v == 0 {
            0
        } else {
            let w: i8 = (v - 1) as i8;
            -w - 1
        }
    }

    fn add_raw(self, other: Self) -> (r: Self) {
        self + other
    }
}

impl Scalar for i16 {
    open spec fn to_math(self) -> int {
        self as int
    }

    open spec fn type_min() -> int {
        i16::MIN as int
    }

    open spec fn type_max() -> int {
        i16::MAX as int
    }

    proof fn in_type_range(self) {
    }

    fn lt(self, other: Self) -> (r: bool) {
        self < other
    }

    fn from_unsigned(v: u128) -> (r: Self) {
        v as i16
    }

    fn from_negated(v: u128) -> (r: Self) {
        if v == 0 {
            0
        } else {
            let w: i16 = (v - 1) as i16;
            -w - 1
        }
    }

    fn add_raw(self, other: Self) -> (r: Self) {
        self + other
    }
}

impl Scalar for i32 {
    open spec fn to_math(self) -> int {
        self as int
    }

    open spec fn type_min() -> int {
        i32::MIN as int
    }

    open spec fn type_max() -> int {
        i32::MAX as int
    }

    proof fn in_type_range(self) {
    }

    fn lt(self, other: Self) -> (r: bool) {
        self < other
    }

    fn from_unsigned(v: u128) -> (r: Self) {
        v as i32
    }

    fn from_negated(v: u128) -> (r: Self) {
        if v == 0 {
            0
        } else {
            let w: i32 = (v - 1) as i32;
            -w - 1
        }
    }

    fn add_raw(self, other: Self) -> (r: Self) {
        self + other
    }
}

impl Scalar for i64 {
    open spec fn to_math(self) -> int {
        self as int
    }

    open spec fn type_min() -> int {
        i64::MIN as int
    }

    open spec fn type_max() -> int {
        i64::MAX as int
    }

    proof fn in_type_range(self) {
    }

    fn lt(self, other: Self) -> (r: bool) {
        self < other
    }

    fn from_unsigned(v: u128) -> (r: Self) {
        v as i64
    }

    fn from_negated(v: u128) -> (r: Self) {
        if v == 0 {
            0
        } else {
            let w: i64 = (v - 1) as i64;
            -w - 1
        }
    }

    fn add_raw(self, other: Self) -> (r: Self) {
        self + other
    }
}

impl Scalar for i128 {
    open spec fn to_math(self) -> int {
        self as int
    }

    open spec fn type_min() -> int {
        i128::MIN as int
    }

    open spec fn type_max() -> int {
        i128::MAX as int
    }

    proof fn in_type_range(self) {
    }

    fn lt(self, other: Self) -> (r: bool) {
        self < other
    }

    fn from_unsigned(v: u128) -> (r: Self) {
        v as i128
    }

    fn from_negated(v: u128) -> (r: Self) {
        if v == 0 {
            0
        } else {
            let w: i128 = (v - 1) as i128;
            -w - 1
        }
    }

    fn add_raw(self, other: Self) -> (r: Self) {
        self + other
    }
}

impl Scalar for isize {
    open spec fn to_math(self) -> int {
        self as int
    }

    open spec fn type_min() -> int {
        isize::MIN as int
    }

    open spec fn type_max() -> int {
        isize::MAX as int
    }

    proof fn in_type_range(self) {
    }

    fn lt(self, other: Self) -> (r: bool) {
        self < other
    }

    fn from_unsigned(v: u128) -> (r: Self) {
        v as isize
    }

    fn from_negated(v: u128) -> (r: Self) {
        if v == 0 {
            0
        } else {
            let w: isize = (v - 1) as isize;
            -w - 1
        }
    }

    fn add_raw(self, other: Self) -> (r: Self) {
        self + other
    }
}

/// Maps a marker to the integer it denotes, and to that integer as a runtime
/// value of `T` when it fits `T`'s representable range.
pub trait ToInt<T: Scalar>: Sized {
    /// The integer this marker denotes.
    spec fn denoted() -> int;

    /// The denoted integer as a value of `T`.
    fn int_value() -> (r: T)
        requires
            T::type_min() <= Self::denoted() <= T::type_max(),
        ensures
            r.to_math() == Self::denoted(),
    ;
}

impl<T: Scalar> ToInt<T> for Zero {
    open spec fn denoted() -> int {
        0
    }

    fn int_value() -> (r: T) {
        T::from_unsigned(0)
    }
}

impl<T: Scalar, const N: u128> ToInt<T> for Pos<N> {
    open spec fn denoted() -> int {
        N as int
    }

    fn int_value() -> (r: T) {
        T::from_unsigned(N)
    }
}

impl<T: Scalar, const N: u128> ToInt<T> for Neg<N> {
    open spec fn denoted() -> int {
        -(N as int)
    }

    fn int_value() -> (r: T) {
        T::from_negated(N)
    }
}

/// The capability that a marker's integer lies within `T`'s representable
/// range. `value` yields the constant as a runtime value of `T`; its
/// precondition is the range proof, discharged once per marker-type pairing.
pub trait Representable<T: Scalar>: Sized {
    /// The integer constant this marker stands for.
    spec fn value_math() -> int;

    /// The constant as a value of `T`.
    fn value() -> (r: T)
        requires
            T::type_min() <= Self::value_math() <= T::type_max(),
        ensures
            r.to_math() == Self::value_math(),
    ;
}

impl<T: Scalar, C: ToInt<T>> Representable<T> for C {
    open spec fn value_math() -> int {
        C::denoted()
    }

    fn value() -> (r: T) {
        C::int_value()
    }
}

} // verus!
