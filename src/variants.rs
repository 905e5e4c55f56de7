//! The three deployments of the vault, which differ only in their constants.
use vstd::prelude::*;
use crate::error::VaultError;
use crate::ledger::Identity;
use crate::offering::AssetId;
use crate::vault::{Vault, VaultParams};

verus! {

/// Fixed-point unit of the seven-decimal deployments.
pub const SCALER: i128 = 10_000_000;

/// The index unit of the seven-decimal deployments, squared to keep precision against
/// large rates.
pub const SCALER_SQUARED: i128 = SCALER * SCALER;

/// Fixed-point unit of the eighteen-decimal share vault.
pub const DECIMALS_IN_INT: i128 = 1_000_000_000_000_000_000;

/// The share vault: positions are shares of a separately issued asset, the index has
/// eighteen decimals and accrues `rate` per block.
pub struct Sea;

impl Sea {
    pub open spec fn spec_params() -> VaultParams {
        VaultParams {
            index_scale: DECIMALS_IN_INT,
            accrual_num: 1,
            accrual_den: 1,
            payout_multiplier: 1,
            decimals: 18,
        }
    }

    pub fn params() -> (r: VaultParams)
        ensures
            r == Self::spec_params(),
            r.wf(),
    {
        VaultParams {
            index_scale: DECIMALS_IN_INT,
            accrual_num: 1,
            accrual_den: 1,
            payout_multiplier: 1,
            decimals: 18,
        }
    }

    /// Sets up the share vault in `slot` with the caller as admin.
    pub fn initialize(
        slot: &mut Option<Vault>,
        caller: Identity,
        now: u32,
        share_token: AssetId,
        base_token: AssetId,
        rate: i128,
    ) -> (r: Result<(), VaultError>)
        ensures
            old(slot).is_some() ==> r == Err::<(), VaultError>(VaultError::AlreadyInitialized)
                && *final(slot) == *old(slot),
            old(slot).is_none() ==> r is Ok && final(slot).is_some() && final(slot).unwrap().is_fresh(
                Self::spec_params(),
                caller,
                now,
                base_token,
                Some(share_token),
                rate,
                0,
            ),
    {
        Vault::initialize(slot, Self::params(), caller, now, base_token, Some(share_token), rate, 0)
    }
}

/// The buried-units vault: positions are held in the vault's own units, the index is scaled
/// by `SCALER_SQUARED` and accrues `rate` per hundred blocks; an offering unit redeems for one
/// base unit.
pub struct PiratesBay;

impl PiratesBay {
    pub open spec fn spec_params() -> VaultParams {
        VaultParams {
            index_scale: SCALER_SQUARED,
            accrual_num: SCALER,
            accrual_den: 100,
            payout_multiplier: 1,
            decimals: 7,
        }
    }

    pub fn params() -> (r: VaultParams)
        ensures
            r == Self::spec_params(),
            r.wf(),
    {
        VaultParams {
            index_scale: SCALER_SQUARED,
            accrual_num: SCALER,
            accrual_den: 100,
            payout_multiplier: 1,
            decimals: 7,
        }
    }

    /// Sets up the buried-units vault in `slot` with the caller as admin.
    pub fn initialize(
        slot: &mut Option<Vault>,
        caller: Identity,
        now: u32,
        base_token: AssetId,
        rate: i128,
        target_raid_interval: u32,
    ) -> (r: Result<(), VaultError>)
        ensures
            old(slot).is_some() ==> r == Err::<(), VaultError>(VaultError::AlreadyInitialized)
                && *final(slot) == *old(slot),
            old(slot).is_none() ==> r is Ok && final(slot).is_some() && final(slot).unwrap().is_fresh(
                Self::spec_params(),
                caller,
                now,
                base_token,
                None,
                rate,
                target_raid_interval,
            ),
    {
        Vault::initialize(slot, Self::params(), caller, now, base_token, None, rate, target_raid_interval)
    }
}

/// As `PiratesBay`, but an offering unit redeems for `SCALER` base units.
pub struct SevenSeas;

impl SevenSeas {
    pub open spec fn spec_params() -> VaultParams {
        VaultParams {
            index_scale: SCALER_SQUARED,
            accrual_num: SCALER,
            accrual_den: 100,
            payout_multiplier: SCALER,
            decimals: 7,
        }
    }

    pub fn params() -> (r: VaultParams)
        ensures
            r == Self::spec_params(),
            r.wf(),
    {
        VaultParams {
            index_scale: SCALER_SQUARED,
            accrual_num: SCALER,
            accrual_den: 100,
            payout_multiplier: SCALER,
            decimals: 7,
        }
    }

    /// Sets up the vault in `slot` with the caller as admin.
    pub fn initialize(
        slot: &mut Option<Vault>,
        caller: Identity,
        now: u32,
        base_token: AssetId,
        rate: i128,
        target_raid_interval: u32,
    ) -> (r: Result<(), VaultError>)
        ensures
            old(slot).is_some() ==> r == Err::<(), VaultError>(VaultError::AlreadyInitialized)
                && *final(slot) == *old(slot),
            old(slot).is_none() ==> r is Ok && final(slot).is_some() && final(slot).unwrap().is_fresh(
                Self::spec_params(),
                caller,
                now,
                base_token,
                None,
                rate,
                target_raid_interval,
            ),
    {
        Vault::initialize(slot, Self::params(), caller, now, base_token, None, rate, target_raid_interval)
    }
}

} // verus!
