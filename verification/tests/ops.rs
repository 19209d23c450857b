use bounded_num::{BoundedNum, Pos};

#[test]
fn u8_valid_add() {
    let left: BoundedNum<u8, Pos<17>, Pos<100>> = BoundedNum::try_new(95).unwrap();
    let right: BoundedNum<u8, Pos<5>, Pos<55>> = BoundedNum::try_new(55).unwrap();

    let result: BoundedNum<u8, Pos<22>, Pos<155>> = left.add(right);

    assert_eq!(result, BoundedNum::try_new(150).unwrap());
}
