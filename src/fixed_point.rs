//! Fixed-point accrual index arithmetic.
//!
//! The index is a fixed-point multiplier: one base unit is worth `index / scale`
//! position units' inverse. Deposits divide by the index, withdrawals multiply by it,
//! and every division truncates toward zero.
use vstd::prelude::*;

verus! {

/// Quotient of `a` by a positive `b`, rounded toward zero, as integer division in Rust does.
pub open spec fn div_toward_zero(a: int, b: int) -> int {
    if a >= 0 {
        a / b
    } else {
        -((-a) / b)
    }
}

pub open spec fn fits_i128(x: int) -> bool {
    i128::MIN <= x <= i128::MAX
}

/// The growth of the index over `elapsed` blocks: `rate * elapsed * num / den`, truncated.
pub open spec fn accrual_growth(rate: int, elapsed: int, num: int, den: int) -> int {
    div_toward_zero(rate * elapsed * num, den)
}

/// The index rolled forward by `elapsed` blocks at `rate`.
pub open spec fn accrued_index(index: int, rate: int, elapsed: int, num: int, den: int) -> int {
    index + accrual_growth(rate, elapsed, num, den)
}

/// Whether rolling the index forward stays within `i128` at every step.
pub open spec fn accrual_in_range(index: int, rate: int, elapsed: int, num: int, den: int) -> bool {
    fits_i128(rate * elapsed * num) && fits_i128(accrued_index(index, rate, elapsed, num, den))
}

/// Position units credited for a deposit of `amount`: `amount * scale / index`, truncated.
pub open spec fn units_for_deposit(amount: int, scale: int, index: int) -> int {
    (amount * scale) / index
}

/// Base units paid for withdrawing `units`: `units * index / scale`, truncated.
pub open spec fn base_for_withdrawal(units: int, index: int, scale: int) -> int {
    (units * index) / scale
}

proof fn lemma_abs_mul_grows(a: int, n: int)
    requires
        n >= 1,
    ensures
        (a >= 0 ==> 0 <= a <= a * n),
        (a < 0 ==> a * n <= a < 0),
{
    assert(a >= 0 ==> a <= a * n) by (nonlinear_arith)
        requires
            n >= 1,
    ;
    assert(a < 0 ==> a * n <= a) by (nonlinear_arith)
        requires
            n >= 1,
    ;
}

/// Rolls `index` forward from `last_block` to `now`.
/// Fails when the clock went backwards or a step leaves the range of `i128`.
pub fn accrue(index: i128, rate: i128, last_block: u32, now: u32, num: i128, den: i128) -> (r:
    Option<i128>)
    requires
        num >= 1,
        den >= 1,
    ensures
        r == (if now >= last_block && accrual_in_range(
            index as int,
            rate as int,
            now - last_block,
            num as int,
            den as int,
        ) {
            Some(accrued_index(index as int, rate as int, now - last_block, num as int, den as int) as i128)
        } else {
            None
        }),
{
    if now < last_block {
        return None;
    }
    let elapsed: i128 = (now - last_block) as i128;
    proof {
        lemma_abs_mul_grows(rate * elapsed, num as int);
    }
    let product = match rate.checked_mul(elapsed) {
        Some(p) => p,
        None => {
            proof {
                assert(!fits_i128(rate * elapsed * num));
            }
            return None;
        },
    };
    let scaled = match product.checked_mul(num) {
        Some(p) => p,
        None => return None,
    };
    let growth = scaled / den;
    index.checked_add(growth)
}

/// Converts a deposit of `amount` base units into position units at `index`.
/// Fails when `amount * scale` leaves the range of `i128`.
pub fn to_units(amount: i128, scale: i128, index: i128) -> (r: Option<i128>)
    requires
        amount >= 0,
        scale > 0,
        index > 0,
    ensures
        r == (if fits_i128(amount * scale) {
            Some(units_for_deposit(amount as int, scale as int, index as int) as i128)
        } else {
            None
        }),
{
    match amount.checked_mul(scale) {
        Some(p) => Some(p / index),
        None => None,
    }
}

/// Converts `units` of a position into base units at `index`.
/// Fails when `units * index` leaves the range of `i128`.
pub fn to_base(units: i128, index: i128, scale: i128) -> (r: Option<i128>)
    requires
        units >= 0,
        scale > 0,
        index >= 0,
    ensures
        r == (if fits_i128(units * index) {
            Some(base_for_withdrawal(units as int, index as int, scale as int) as i128)
        } else {
            None
        }),
{
    match units.checked_mul(index) {
        Some(p) => Some(p / scale),
        None => None,
    }
}

/// With a non-negative rate, rolling the index forward never lowers it.
pub proof fn lemma_accrual_monotone(index: int, rate: int, elapsed: int, num: int, den: int)
    requires
        rate >= 0,
        elapsed >= 0,
        num >= 1,
        den >= 1,
    ensures
        accrued_index(index, rate, elapsed, num, den) >= index,
{
    assert(rate * elapsed * num >= 0) by (nonlinear_arith)
        requires
            rate >= 0,
            elapsed >= 0,
            num >= 1,
    ;
    assert((rate * elapsed * num) / den >= 0) by (nonlinear_arith)
        requires
            rate * elapsed * num >= 0,
            den >= 1,
    ;
}

} // verus!
