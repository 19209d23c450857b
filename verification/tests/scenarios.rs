use bounded_num::{
    BoundedNum, Neg, OutOfBoundsError, Pos, SafeGet, TryIntoError, Zero,
};

#[test]
fn round_trip_preserves_value() {
    let b: BoundedNum<u8, Pos<99>, Pos<101>> = BoundedNum::try_new(100).unwrap();

    let rebuilt: BoundedNum<u8, Pos<99>, Pos<101>> = BoundedNum::try_new(b.inner()).unwrap();

    assert_eq!(rebuilt.inner(), b.inner());
}

#[test]
fn boundaries_are_inclusive() {
    assert!(BoundedNum::<u8, Pos<99>, Pos<101>>::try_new(99).is_ok());
    assert!(BoundedNum::<u8, Pos<99>, Pos<101>>::try_new(101).is_ok());
    assert_eq!(
        BoundedNum::<u8, Pos<99>, Pos<101>>::try_new(98).unwrap_err(),
        OutOfBoundsError::TooSmall
    );
    assert_eq!(
        BoundedNum::<u8, Pos<99>, Pos<101>>::try_new(102).unwrap_err(),
        OutOfBoundsError::TooLarge
    );
}

#[test]
fn signed_try_new_accepts_negative_values() {
    let b: BoundedNum<i8, Neg<5>, Pos<5>> = BoundedNum::try_new(-5).unwrap();

    assert_eq!(b.inner(), -5);
    assert_eq!(
        BoundedNum::<i8, Neg<5>, Pos<5>>::try_new(-6).unwrap_err(),
        OutOfBoundsError::TooSmall
    );
}

#[test]
fn widen_to_larger_element_type() {
    let value: BoundedNum<u8, Zero, Pos<128>> = BoundedNum::try_new(95).unwrap();

    let widened: BoundedNum<u16, Zero, Pos<300>> = value.into();

    assert_eq!(widened.inner(), 95u16);
}

#[test]
fn widen_unsigned_to_signed() {
    let value: BoundedNum<u8, Zero, Pos<255>> = BoundedNum::try_new(200).unwrap();

    let widened: BoundedNum<i16, Neg<1>, Pos<255>> = value.into();

    assert_eq!(widened.inner(), 200i16);
}

#[test]
fn narrow_rejects_value_with_no_representation() {
    let value: BoundedNum<i8, Neg<10>, Pos<10>> = BoundedNum::try_new(-5).unwrap();

    let narrowed: Result<BoundedNum<u8, Zero, Pos<255>>, _> = value.try_into();

    assert!(matches!(
        narrowed,
        Err(TryIntoError::InnerConversionError(_))
    ));
}

#[test]
fn narrow_succeeds_across_types() {
    let value: BoundedNum<u8, Zero, Pos<128>> = BoundedNum::try_new(121).unwrap();

    let narrowed: Result<BoundedNum<i8, Neg<128>, Pos<127>>, _> = value.try_into();

    assert_eq!(narrowed.unwrap().inner(), 121i8);
}

#[test]
fn narrow_within_wider_unsigned_types() {
    let value: BoundedNum<u128, Zero, Pos<18446744073709551616>> =
        BoundedNum::try_new(18446744073709551616).unwrap();

    let narrowed: Result<BoundedNum<u64, Zero, Pos<18446744073709551615>>, _> = value.try_into();

    assert!(matches!(
        narrowed,
        Err(TryIntoError::InnerConversionError(_))
    ));
}

#[test]
fn add_reaches_both_derived_bounds() {
    let low_left: BoundedNum<u8, Pos<17>, Pos<100>> = BoundedNum::try_new(17).unwrap();
    let low_right: BoundedNum<u8, Pos<5>, Pos<55>> = BoundedNum::try_new(5).unwrap();
    let low_sum: BoundedNum<u8, Pos<22>, Pos<155>> = low_left.add(low_right);
    assert_eq!(low_sum.inner(), 22);

    let high_left: BoundedNum<u8, Pos<17>, Pos<100>> = BoundedNum::try_new(100).unwrap();
    let high_right: BoundedNum<u8, Pos<5>, Pos<55>> = BoundedNum::try_new(55).unwrap();
    let high_sum: BoundedNum<u8, Pos<22>, Pos<155>> = high_left.add(high_right);
    assert_eq!(high_sum.inner(), 155);
}

#[test]
fn add_signed_values() {
    let left: BoundedNum<i8, Neg<5>, Zero> = BoundedNum::try_new(-3).unwrap();
    let right: BoundedNum<i8, Neg<5>, Zero> = BoundedNum::try_new(-2).unwrap();

    let sum: BoundedNum<i8, Neg<10>, Zero> = left.add(right);

    assert_eq!(sum.inner(), -5);
}

#[test]
fn get_safe_first_element() {
    let array = [7, 8, 9];
    let index: BoundedNum<usize, Zero, Pos<2>> = BoundedNum::try_new(0).unwrap();

    assert_eq!(*array.get_safe(index), 7);
}
