//! Properties that hold of every vault and every sequence of operations on it.
use vstd::prelude::*;
use crate::error::VaultError;
use crate::fixed_point::{fits_i128, lemma_accrual_monotone};
use crate::ledger::Identity;
use crate::vault::Vault;

verus! {

/// While the rate is non-negative and the block height does not go backwards, rolling the
/// index forward never lowers it. Every operation either leaves the index alone or sets it to
/// `index_at(now)`, so over any such sequence of operations the index is non-decreasing.
pub proof fn lemma_index_never_falls(v: &Vault, now: u32)
    requires
        v.wf(),
        v.rate >= 0,
        now >= v.last_block,
    ensures
        v.index_at(now) >= v.index,
{
    lemma_accrual_monotone(
        v.index as int,
        v.rate as int,
        now - v.last_block,
        v.params.accrual_num as int,
        v.params.accrual_den as int,
    );
}

/// Rolled forward from one stored state, the index at a later block is never below the index
/// at an earlier one while the rate is non-negative.
pub proof fn lemma_index_grows_with_height(v: &Vault, earlier: u32, later: u32)
    requires
        v.wf(),
        v.rate >= 0,
        v.last_block <= earlier <= later,
    ensures
        v.index <= v.index_at(earlier) <= v.index_at(later),
{
    lemma_index_never_falls(v, earlier);
    let r = v.rate as int;
    let n = v.params.accrual_num as int;
    let d = v.params.accrual_den as int;
    let e1 = earlier - v.last_block;
    let e2 = later - v.last_block;
    assert(r * e1 * n <= r * e2 * n && 0 <= r * e1 * n) by (nonlinear_arith)
        requires
            r >= 0,
            n >= 1,
            0 <= e1 <= e2,
    ;
    assert((r * e1 * n) / d <= (r * e2 * n) / d) by (nonlinear_arith)
        requires
            0 <= r * e1 * n <= r * e2 * n,
            d >= 1,
    ;
}

/// The recorded total of position units is exactly the sum of all positions, and every
/// position lies between zero and that total. Deposits and withdrawals keep this, whatever
/// their order.
pub proof fn lemma_positions_sum_to_total(v: &Vault, who: Identity)
    requires
        v.wf(),
    ensures
        v.total_units == v.positions.total(),
        0 <= v.position(who) <= v.total_units,
{
    v.positions.lemma_within_total(who);
}

/// No offering has sold more than its capacity, and an embark call that would push it past
/// its capacity fails with `OfferingCapacityExceeded` (and so changes nothing).
pub proof fn lemma_capacity_respected(v: &Vault, now: u32, id: i32, units: i128)
    requires
        v.wf(),
        v.offering_exists(id),
        v.offering(id).unwrap().max_vygs >= 0,
    ensures
        0 <= v.offering(id).unwrap().n_embarked <= v.offering(id).unwrap().max_vygs,
        now <= v.offering(id).unwrap().expiration && units >= 0 && v.offering(id).unwrap().n_embarked
            + units > v.offering(id).unwrap().max_vygs ==> v.embark_error(now, id, units) == Some(
            VaultError::OfferingCapacityExceeded,
        ),
{
    assert(v.voyages@[id - 1].wf());
}

/// Redemption is not gated on time: once an embark of a positive number of units succeeds,
/// the funder can redeem them at any later block, before, at or after the offering's
/// expiration, as long as the payout fits in `i128`.
pub proof fn lemma_funded_position_redeemable(
    before: &Vault,
    after: &Vault,
    caller: Identity,
    id: i32,
    units: i128,
)
    requires
        before.embarked(after, caller, id, units),
        units > 0,
        fits_i128(units * before.params.payout_multiplier),
    ensures
        after.redeem_error(caller, id) is None,
{
}

/// Creating an offering and changing the rate refuse a caller other than the admin with
/// `Unauthorized`, and on that error leave the whole vault, admin, rate and offerings
/// included, as it was. `set_admin`, `set_target_raid_interval` and `sweep_held_funds` state
/// the same refusal in their own contracts.
pub proof fn lemma_non_admin_refused(v: &Vault, caller: Identity, now: u32)
    requires
        caller != v.admin,
    ensures
        v.create_offering_error(caller, now) == Some(VaultError::Unauthorized),
        v.set_rate_error(caller, now) == Some(VaultError::Unauthorized),
{
}

} // verus!
