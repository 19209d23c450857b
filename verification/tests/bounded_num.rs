use bounded_num::{BoundedNum, OutOfBoundsError, Pos, Zero};

#[test]
fn try_new_between_min_and_max() {
    let t: u8 = 100;

    let bounded: Result<BoundedNum<u8, Pos<99>, Pos<101>>, _> = BoundedNum::try_new(t);

    assert!(bounded.is_ok());
    assert_eq!(bounded.unwrap().inner(), t);
}

#[test]
fn try_new_equals_min() {
    let t: u8 = 100;

    let bounded: Result<BoundedNum<u8, Pos<100>, Pos<101>>, _> = BoundedNum::try_new(t);

    assert!(bounded.is_ok());
    assert_eq!(bounded.unwrap().inner(), t);
}

#[test]
fn try_new_equals_max() {
    let t: u8 = 100;

    let bounded: Result<BoundedNum<u8, Pos<99>, Pos<100>>, _> = BoundedNum::try_new(t);

    assert!(bounded.is_ok());
    assert_eq!(bounded.unwrap().inner(), t);
}

#[test]
fn try_new_equals_min_and_max() {
    let t: u8 = 100;

    let bounded: Result<BoundedNum<u8, Pos<100>, Pos<100>>, _> = BoundedNum::try_new(t);

    assert!(bounded.is_ok());
    assert_eq!(bounded.unwrap().inner(), t);
}

#[test]
fn try_new_less_than_min() {
    let t: u8 = 100;

    let bounded: Result<BoundedNum<u8, Pos<101>, Pos<155>>, _> = BoundedNum::try_new(t);

    assert!(!bounded.is_ok());
    assert_eq!(bounded.unwrap_err(), OutOfBoundsError::TooSmall);
}

#[test]
fn try_new_more_than_max() {
    let t: u8 = 100;

    let bounded: Result<BoundedNum<u8, Zero, Pos<99>>, _> = BoundedNum::try_new(t);

    assert!(!bounded.is_ok());
    assert_eq!(bounded.unwrap_err(), OutOfBoundsError::TooLarge);
}
