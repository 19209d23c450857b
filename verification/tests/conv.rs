use bounded_num::{BoundedNum, Neg, Pos, TryIntoError, Zero};

#[test]
fn u8_valid_into() {
    let value: BoundedNum<u8, Zero, Pos<128>> = BoundedNum::try_new(95).unwrap();

    let new_value: BoundedNum<u8, Zero, Pos<255>> = value.into();

    assert_eq!(value.inner(), new_value.inner());
}

#[test]
fn u8_ok_try_into() {
    let value: BoundedNum<u8, Zero, Pos<128>> = BoundedNum::try_new(95).unwrap();

    let new_value: Result<BoundedNum<u8, Zero, Pos<255>>, _> = value.try_into();

    assert!(new_value.is_ok());
    assert_eq!(value.inner(), new_value.unwrap().inner());
}

#[test]
fn u8_try_into_i8_unrepresentable_value() {
    let value: BoundedNum<u8, Zero, Pos<128>> = BoundedNum::try_new(128).unwrap();

    let new_value: Result<BoundedNum<i8, Neg<128>, Pos<127>>, _> = value.try_into();

    assert!(matches!(
        new_value,
        Err(TryIntoError::InnerConversionError(_))
    ));
}

#[test]
fn u8_try_into_i8_too_large() {
    let value: BoundedNum<u8, Zero, Pos<128>> = BoundedNum::try_new(121).unwrap();

    let new_value: Result<BoundedNum<i8, Neg<128>, Pos<120>>, _> = value.try_into();

    assert_eq!(new_value, Err(TryIntoError::TooLarge));
}

#[test]
fn u8_try_into_i8_too_small() {
    let value: BoundedNum<u8, Zero, Pos<128>> = BoundedNum::try_new(3).unwrap();

    let new_value: Result<BoundedNum<i8, Pos<5>, Pos<120>>, _> = value.try_into();

    assert_eq!(new_value, Err(TryIntoError::TooSmall));
}
