use tx_ledger::account::Account;
use tx_ledger::amount::{Amount, MAX_UNITS, SCALE};

fn amount(units: i128) -> Amount {
    Amount::from_units(units).unwrap()
}

#[test]
fn scale_is_four_digits() {
    assert_eq!(SCALE, 4);
    assert_eq!(MAX_UNITS, (1i128 << 96) - 1);
}

#[test]
fn zero_has_no_units() {
    assert_eq!(Amount::zero().units(), 0);
    assert_eq!(Amount::zero(), amount(0));
}

#[test]
fn from_units_keeps_the_count() {
    assert_eq!(amount(100_000).units(), 100_000);
    assert_eq!(amount(-1).units(), -1);
}

#[test]
fn from_units_accepts_the_bounds() {
    assert_eq!(amount(MAX_UNITS).units(), MAX_UNITS);
    assert_eq!(amount(-MAX_UNITS).units(), -MAX_UNITS);
}

#[test]
fn from_units_refuses_what_does_not_fit() {
    assert_eq!(Amount::from_units(MAX_UNITS + 1), None);
    assert_eq!(Amount::from_units(-MAX_UNITS - 1), None);
    assert_eq!(Amount::from_units(i128::MAX), None);
    assert_eq!(Amount::from_units(i128::MIN), None);
}

#[test]
fn checked_add_gives_the_exact_sum() {
    assert_eq!(amount(1).checked_add(amount(2)), Some(amount(3)));
    assert_eq!(amount(100_000).checked_add(amount(25_001)), Some(amount(125_001)));
    assert_eq!(amount(5).checked_add(amount(-7)), Some(amount(-2)));
    assert_eq!(amount(0).checked_add(amount(9)), Some(amount(9)));
    assert_eq!(amount(9).checked_add(amount(0)), Some(amount(9)));
    assert_eq!(amount(7).checked_add(amount(-7)), Some(amount(0)));
}

#[test]
fn checked_add_carries_beyond_thirty_two_and_sixty_four_bits() {
    let low = (1i128 << 32) - 1;
    assert_eq!(amount(low).checked_add(amount(1)), Some(amount(1i128 << 32)));
    let mid = (1i128 << 64) - 1;
    assert_eq!(amount(mid).checked_add(amount(1)), Some(amount(1i128 << 64)));
    assert_eq!(amount(-mid).checked_add(amount(-1)), Some(amount(-(1i128 << 64))));
    let wide = 1i128 << 80;
    assert_eq!(amount(wide).checked_add(amount(wide)), Some(amount(1i128 << 81)));
}

#[test]
fn checked_add_reaches_the_bounds() {
    assert_eq!(amount(MAX_UNITS - 1).checked_add(amount(1)), Some(amount(MAX_UNITS)));
    assert_eq!(amount(-MAX_UNITS + 1).checked_add(amount(-1)), Some(amount(-MAX_UNITS)));
    assert_eq!(amount(MAX_UNITS).checked_add(amount(-MAX_UNITS)), Some(amount(0)));
}

#[test]
fn checked_add_refuses_a_sum_that_does_not_fit() {
    assert_eq!(amount(MAX_UNITS).checked_add(amount(1)), None);
    assert_eq!(amount(MAX_UNITS).checked_add(amount(MAX_UNITS)), None);
    assert_eq!(amount(-MAX_UNITS).checked_add(amount(-1)), None);
    assert_eq!(amount(1i128 << 95).checked_add(amount(1i128 << 95)), None);
}

#[test]
fn checked_sub_gives_the_exact_difference() {
    assert_eq!(amount(5).checked_sub(amount(2)), Some(amount(3)));
    assert_eq!(amount(2).checked_sub(amount(5)), Some(amount(-3)));
    assert_eq!(amount(0).checked_sub(amount(4)), Some(amount(-4)));
    assert_eq!(amount(4).checked_sub(amount(0)), Some(amount(4)));
    assert_eq!(amount(-4).checked_sub(amount(-4)), Some(amount(0)));
    assert_eq!(amount(1i128 << 64).checked_sub(amount(1)), Some(amount((1i128 << 64) - 1)));
    assert_eq!(amount(1i128 << 90).checked_sub(amount(1i128 << 91)), Some(amount(-(1i128 << 90))));
}

#[test]
fn checked_sub_refuses_a_difference_that_does_not_fit() {
    assert_eq!(amount(-MAX_UNITS).checked_sub(amount(1)), None);
    assert_eq!(amount(MAX_UNITS).checked_sub(amount(-1)), None);
    assert_eq!(amount(MAX_UNITS).checked_sub(amount(0)), Some(amount(MAX_UNITS)));
}

#[test]
fn exceeds_orders_amounts_by_value() {
    assert!(amount(2).exceeds(amount(1)));
    assert!(!amount(1).exceeds(amount(2)));
    assert!(!amount(3).exceeds(amount(3)));
    assert!(amount(0).exceeds(amount(-1)));
    assert!(!amount(-1).exceeds(amount(0)));
    assert!(amount(-1).exceeds(amount(-2)));
    assert!(!amount(-2).exceeds(amount(-1)));
    assert!(amount(1i128 << 70).exceeds(amount((1i128 << 70) - 1)));
    assert!(!amount(0).exceeds(amount(0)));
}

#[test]
fn new_account_is_zeroed_and_unlocked() {
    let account = Account::new(7);
    assert_eq!(account.client_id, 7);
    assert_eq!(account.available.units(), 0);
    assert_eq!(account.held.units(), 0);
    assert_eq!(account.total.units(), 0);
    assert!(!account.locked);
}

#[test]
fn account_movements_change_the_right_balances() {
    let start = Account::new(3).deposit(amount(100)).unwrap();
    assert_eq!((start.available.units(), start.held.units(), start.total.units()), (100, 0, 100));
    let after = start.withdraw(amount(30)).unwrap();
    assert_eq!((after.available.units(), after.held.units(), after.total.units()), (70, 0, 70));
    let held = after.hold(amount(20)).unwrap();
    assert_eq!((held.available.units(), held.held.units(), held.total.units()), (50, 20, 70));
    let released = held.release(amount(20)).unwrap();
    assert_eq!(released, after);
    let charged = held.charge_back(amount(20)).unwrap();
    assert_eq!((charged.available.units(), charged.held.units(), charged.total.units()), (50, 0, 50));
    assert!(charged.locked);
    assert!(!held.locked);
    assert_eq!(charged.client_id, 3);
}

#[test]
fn account_movements_refuse_overflow() {
    let full = Account::new(1).deposit(amount(MAX_UNITS)).unwrap();
    assert_eq!(full.deposit(amount(1)), None);
    assert_eq!(full.hold(amount(-1)), None);
    let empty = Account::new(1).withdraw(amount(MAX_UNITS)).unwrap();
    assert_eq!(empty.withdraw(amount(1)), None);
    assert_eq!(empty.release(amount(-1)), None);
    assert_eq!(empty.charge_back(amount(1)), None);
}

#[test]
fn from_decimal_parts_scales_up_to_four_digits() {
    assert_eq!(Amount::from_decimal_parts(10, 0), Some(amount(100_000)));
    assert_eq!(Amount::from_decimal_parts(15, 1), Some(amount(15_000)));
    assert_eq!(Amount::from_decimal_parts(-125, 2), Some(amount(-12_500)));
    assert_eq!(Amount::from_decimal_parts(1_234, 3), Some(amount(12_340)));
    assert_eq!(Amount::from_decimal_parts(12_345, 4), Some(amount(12_345)));
    assert_eq!(Amount::from_decimal_parts(0, 0), Some(amount(0)));
}

#[test]
fn from_decimal_parts_drops_trailing_zeros_beyond_four_digits() {
    assert_eq!(Amount::from_decimal_parts(150_000, 5), Some(amount(15_000)));
    assert_eq!(Amount::from_decimal_parts(-1_000_000, 6), Some(amount(-10_000)));
    assert_eq!(Amount::from_decimal_parts(7 * 10i128.pow(24), 28), Some(amount(7)));
    assert_eq!(Amount::from_decimal_parts(0, 28), Some(amount(0)));
    assert_eq!(Amount::from_decimal_parts(0, u32::MAX), Some(amount(0)));
}

#[test]
fn from_decimal_parts_refuses_a_fifth_significant_digit() {
    assert_eq!(Amount::from_decimal_parts(123_456, 5), None);
    assert_eq!(Amount::from_decimal_parts(-1, 5), None);
    assert_eq!(Amount::from_decimal_parts(1, 28), None);
    assert_eq!(Amount::from_decimal_parts(1_000, 8), None);
    assert_eq!(Amount::from_decimal_parts(10, u32::MAX), None);
}

#[test]
fn from_decimal_parts_refuses_what_does_not_fit() {
    assert_eq!(Amount::from_decimal_parts(MAX_UNITS, 4), Some(amount(MAX_UNITS)));
    assert_eq!(Amount::from_decimal_parts(MAX_UNITS, 3), None);
    assert_eq!(Amount::from_decimal_parts(-MAX_UNITS, 0), None);
    assert_eq!(Amount::from_decimal_parts(MAX_UNITS / 10_000, 0), Some(amount(MAX_UNITS / 10_000 * 10_000)));
    assert_eq!(Amount::from_decimal_parts(MAX_UNITS / 10_000 + 1, 0), None);
    assert_eq!(Amount::from_decimal_parts(i128::MAX, 0), None);
    assert_eq!(Amount::from_decimal_parts(i128::MIN, 2), None);
    assert_eq!(Amount::from_decimal_parts(i128::MAX, 4), None);
    assert_eq!(Amount::from_decimal_parts(i128::MIN, 5), None);
    assert_eq!(Amount::from_decimal_parts(MAX_UNITS * 10, 5), Some(amount(MAX_UNITS)));
    assert_eq!(Amount::from_decimal_parts((MAX_UNITS + 1) * 10, 5), None);
}
