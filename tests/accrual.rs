use seven_seas::error::VaultError;
use seven_seas::variants::{PiratesBay, Sea, SevenSeas, DECIMALS_IN_INT, SCALER, SCALER_SQUARED};
use seven_seas::vault::Vault;

const ADMIN: u64 = 1;
const USER1: u64 = 2;
const USER2: u64 = 3;
const BASE_TOKEN: u64 = 100;
const SHARE_TOKEN: u64 = 101;

fn seven_seas_at(now: u32, rate: i128) -> Vault {
    let mut slot: Option<Vault> = None;
    SevenSeas::initialize(&mut slot, ADMIN, now, BASE_TOKEN, rate, 1800).unwrap();
    slot.unwrap()
}

fn sea_at(now: u32, rate: i128) -> Vault {
    let mut slot: Option<Vault> = None;
    Sea::initialize(&mut slot, ADMIN, now, SHARE_TOKEN, BASE_TOKEN, rate).unwrap();
    slot.unwrap()
}

#[test]
fn test_deposit_test_deposit_happy_path() {
    let deposit_amount: i128 = 123456789;
    let mut v = sea_at(0, 5000000000000);
    let minted = v.deposit(USER1, 0, deposit_amount).unwrap();
    assert_eq!(minted, deposit_amount);
    assert_eq!(v.get_position(USER1), deposit_amount);
    assert_eq!(v.total_units, deposit_amount);
    assert_eq!(v.share_token, Some(SHARE_TOKEN));
}

#[test]
fn test_withdraw_test_withdraw_happy_path() {
    let withdraw_amount: i128 = 123456789;
    let rate: i128 = 5000000000000;
    let mut v = sea_at(10, rate);
    v.deposit(USER1, 10, withdraw_amount).unwrap();
    assert_eq!(v.get_position(USER1), withdraw_amount);
    let expected_withdrawal = (rate * 10000 + DECIMALS_IN_INT) * withdraw_amount / DECIMALS_IN_INT;
    let paid = v.withdraw(USER1, 10010, withdraw_amount).unwrap();
    assert_eq!(expected_withdrawal, paid);
    assert_eq!(paid, 129629628);
    assert_eq!(v.get_position(USER1), 0);
}

#[test]
fn test_deposit_happy_path() {
    let deposit_amount: i128 = 123456789;
    let mut v = seven_seas_at(10, 500);
    let buried = v.deposit(USER1, 10010, deposit_amount).unwrap();
    let expected_bury_amount: i128 = 122842576;
    assert_eq!(buried, expected_bury_amount);
    assert_eq!(v.get_position(USER1), expected_bury_amount);
}

#[test]
fn test_withdraw_happy_path() {
    let withdraw_amount: i128 = 123456789;
    let mut v = seven_seas_at(10, 10);
    v.deposit(USER1, 10, withdraw_amount).unwrap();
    let expected_withdrawal: i128 = 123469134;
    let paid = v.withdraw(USER1, 10010, withdraw_amount).unwrap();
    assert_eq!(expected_withdrawal, paid);
}

#[test]
fn round_trip_at_eighteen_decimals() {
    let amount: i128 = 123456789;
    let rate: i128 = 500;
    let mut v = sea_at(0, rate);
    let units = v.deposit(USER1, 0, amount).unwrap();
    assert_eq!(units, amount);
    let paid = v.withdraw(USER1, 10000, units).unwrap();
    assert_eq!(paid, (rate * 10000 + DECIMALS_IN_INT) * amount / DECIMALS_IN_INT);
    assert_eq!(paid, 123456789);
    assert_eq!(v.index, DECIMALS_IN_INT + 5000000);
}

#[test]
fn initial_state_of_each_deployment() {
    let v = seven_seas_at(42, 7);
    assert_eq!(v.index, SCALER_SQUARED);
    assert_eq!(v.last_block, 42);
    assert_eq!(v.rate, 7);
    assert_eq!(v.admin, ADMIN);
    assert_eq!(v.total_units, 0);
    assert_eq!(v.target_raid_interval, 1800);
    assert_eq!(v.get_last_raid_block(), 0);
    assert_eq!(v.get_decimals(), 7);
    assert_eq!(v.share_token, None);
    let s = sea_at(0, 1);
    assert_eq!(s.index, DECIMALS_IN_INT);
    assert_eq!(s.get_decimals(), 18);
    let mut slot: Option<Vault> = None;
    PiratesBay::initialize(&mut slot, ADMIN, 5, BASE_TOKEN, 3, 900).unwrap();
    let p = slot.unwrap();
    assert_eq!(p.index, SCALER * SCALER);
    assert_eq!(p.params.payout_multiplier, 1);
    assert_eq!(SevenSeas::params().payout_multiplier, SCALER);
}

#[test]
fn second_initialize_is_refused() {
    let mut slot: Option<Vault> = None;
    SevenSeas::initialize(&mut slot, ADMIN, 10, BASE_TOKEN, 500, 1800).unwrap();
    let again = SevenSeas::initialize(&mut slot, USER1, 20, 999, 1, 1);
    assert_eq!(again, Err(VaultError::AlreadyInitialized));
    let v = slot.unwrap();
    assert_eq!(v.admin, ADMIN);
    assert_eq!(v.base_token, BASE_TOKEN);
    assert_eq!(v.rate, 500);
}

#[test]
fn index_accrues_per_hundred_blocks() {
    let mut v = seven_seas_at(0, 500);
    v.deposit(USER1, 100, 0).unwrap();
    // 500 * 100 * SCALER / 100 on top of SCALER^2
    assert_eq!(v.index, SCALER_SQUARED + 500 * SCALER);
    assert_eq!(v.last_block, 100);
}

#[test]
fn index_never_falls_with_non_negative_rate() {
    let mut v = seven_seas_at(0, 3);
    let mut last = v.index;
    let blocks: [u32; 5] = [0, 1, 7, 7, 250];
    for b in blocks {
        v.deposit(USER1, b, 1000).unwrap();
        assert!(v.index >= last);
        last = v.index;
        v.withdraw(USER1, b, 1).unwrap();
        assert!(v.index >= last);
        last = v.index;
    }
}

#[test]
fn negative_rate_truncates_toward_zero() {
    let mut v = sea_at(0, -3);
    v.set_rate(ADMIN, 1, -3).unwrap();
    assert_eq!(v.index, DECIMALS_IN_INT - 3);
    let mut w = seven_seas_at(0, -1);
    w.set_rate(ADMIN, 1, 0).unwrap();
    // -1 * 1 * SCALER / 100 = -100000 exactly
    assert_eq!(w.index, SCALER_SQUARED - 100000);
    let mut x = seven_seas_at(0, -1);
    x.set_rate(ADMIN, 0, 0).unwrap();
    assert_eq!(x.index, SCALER_SQUARED);
}

#[test]
fn positions_sum_to_total() {
    let mut v = seven_seas_at(0, 500);
    v.deposit(USER1, 100, 5000).unwrap();
    v.deposit(USER2, 200, 777777).unwrap();
    v.deposit(USER1, 300, 12345).unwrap();
    let p1 = v.get_position(USER1);
    v.withdraw(USER1, 400, p1 / 2).unwrap();
    v.withdraw(USER2, 500, 1).unwrap();
    assert_eq!(v.get_position(USER1) + v.get_position(USER2), v.total_units);
    assert_eq!(v.get_position(4), 0);
}

#[test]
fn withdraw_beyond_position_fails_and_changes_nothing() {
    let mut v = seven_seas_at(0, 500);
    v.deposit(USER1, 0, 1000).unwrap();
    let r = v.withdraw(USER1, 50, 1001);
    assert_eq!(r, Err(VaultError::InsufficientPosition));
    assert_eq!(v.get_position(USER1), 1000);
    assert_eq!(v.index, SCALER_SQUARED);
    assert_eq!(v.last_block, 0);
    assert_eq!(v.withdraw(USER2, 0, 1), Err(VaultError::InsufficientPosition));
}

#[test]
fn negative_amounts_are_refused() {
    let mut v = seven_seas_at(0, 500);
    assert_eq!(v.deposit(USER1, 0, -1), Err(VaultError::NegativeAmount));
    assert_eq!(v.withdraw(USER1, 0, -1), Err(VaultError::NegativeAmount));
    assert_eq!(v.total_units, 0);
}

#[test]
fn clock_going_backwards_is_a_fault() {
    let mut v = seven_seas_at(100, 500);
    assert_eq!(v.deposit(USER1, 99, 10), Err(VaultError::ArithmeticFault));
    assert_eq!(v.withdraw(USER1, 99, 0), Err(VaultError::ArithmeticFault));
    assert_eq!(v.set_rate(ADMIN, 99, 1), Err(VaultError::ArithmeticFault));
    assert_eq!(v.rate, 500);
    assert_eq!(v.last_block, 100);
}

#[test]
fn overflow_is_a_fault() {
    let mut v = sea_at(0, 1);
    // amount * 10^18 does not fit in i128
    assert_eq!(v.deposit(USER1, 0, i128::MAX / 1000), Err(VaultError::ArithmeticFault));
    let mut w = sea_at(0, i128::MAX);
    assert_eq!(w.deposit(USER1, 2, 1), Err(VaultError::ArithmeticFault));
    assert_eq!(w.index, DECIMALS_IN_INT);
}

#[test]
fn non_positive_index_is_a_fault() {
    let mut v = sea_at(0, -DECIMALS_IN_INT);
    assert_eq!(v.deposit(USER1, 1, 10), Err(VaultError::ArithmeticFault));
    assert_eq!(v.index, DECIMALS_IN_INT);
}

#[test]
fn withdraw_at_zero_index_pays_nothing() {
    let mut v = seven_seas_at(0, -1_000_000_000);
    assert_eq!(v.deposit(USER1, 0, 1000), Ok(1000));
    assert_eq!(v.withdraw(USER1, 1, 1000), Ok(0));
    assert_eq!(v.index, 0);
    assert_eq!(v.last_block, 1);
    assert_eq!(v.get_position(USER1), 0);
    assert_eq!(v.total_units, 0);

    let mut s = sea_at(0, -DECIMALS_IN_INT);
    assert_eq!(s.deposit(USER2, 0, 1000), Ok(1000));
    assert_eq!(s.withdraw(USER2, 1, 400), Ok(0));
    assert_eq!(s.index, 0);
    assert_eq!(s.get_position(USER2), 600);
    assert_eq!(s.total_units, 600);
}

#[test]
fn withdraw_at_negative_index_is_a_fault() {
    let mut v = sea_at(0, -DECIMALS_IN_INT);
    v.deposit(USER1, 0, 1000).unwrap();
    assert_eq!(v.withdraw(USER1, 2, 1000), Err(VaultError::ArithmeticFault));
    assert_eq!(v.index, DECIMALS_IN_INT);
    assert_eq!(v.get_position(USER1), 1000);
}
