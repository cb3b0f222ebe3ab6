use oracle_client::price::ATTOS_PER_UNIT;
use oracle_client::price::Decimal;

#[test]
fn zero_is_zero_attos() {
    assert_eq!(Decimal::zero().attos, 0);
}

#[test]
fn from_units_scales() {
    assert_eq!(Decimal::from_units(1), Decimal::from_attos(ATTOS_PER_UNIT));
    assert_eq!(Decimal::from_units(-3).attos, -3 * ATTOS_PER_UNIT);
}

#[test]
fn negativity() {
    assert!(Decimal::from_attos(-1).is_negative());
    assert!(!Decimal::zero().is_negative());
    assert!(!Decimal::from_attos(1).is_negative());
}

#[test]
fn checked_add_adds() {
    let a = Decimal::from_attos(40);
    let b = Decimal::from_attos(2);
    assert_eq!(a.checked_add(&b), Some(Decimal::from_attos(42)));
}

#[test]
fn checked_add_overflow_is_none() {
    let a = Decimal::from_attos(i128::MAX);
    let b = Decimal::from_attos(1);
    assert_eq!(a.checked_add(&b), None);
}
