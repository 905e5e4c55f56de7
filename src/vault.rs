//! The vault: an accrual index, a position ledger and an offering registry under one admin.
//!
//! Every operation takes the caller's identity and the current block height from the host,
//! checks everything it needs before it writes, and on any failure returns the error with
//! the state untouched. What the host must then do on the asset ledger is given by the
//! operation's result (the amount to burn, mint or transfer).
use vstd::prelude::*;
use crate::error::VaultError;
use crate::fixed_point::{
    accrue, accrual_in_range, accrued_index, base_for_withdrawal, fits_i128,
    lemma_accrual_monotone, to_base, to_units, units_for_deposit,
};
use crate::ledger::{Identity, Ledger};
use crate::offering::{AssetId, Voyage, VoyageInfo, WEEK_IN_BLOCKS};

verus! {

/// The constants that tell one deployment of the vault from another.
#[derive(Clone, Copy, Debug, PartialEq, Eq, Structural)]
pub struct VaultParams {
    /// The fixed-point unit of the index; the index starts here.
    pub index_scale: i128,
    /// Numerator of the factor applied to `rate * elapsed` when the index accrues.
    pub accrual_num: i128,
    /// Denominator of that factor.
    pub accrual_den: i128,
    /// Payout units minted per offering unit redeemed.
    pub payout_multiplier: i128,
    /// Display precision reported to clients.
    pub decimals: u32,
}

impl VaultParams {
    pub open spec fn wf(&self) -> bool {
        &&& self.index_scale > 0
        &&& self.accrual_num >= 1
        &&& self.accrual_den >= 1
        &&& self.payout_multiplier >= 1
    }
}

/// The whole persisted state of one deployed vault.
/// A host stages an operation on a clone and keeps it only once the asset ledger has done its part.
#[derive(Clone, Debug)]
pub struct Vault {
    pub params: VaultParams,
    /// The asset deposited and paid out.
    pub base_token: AssetId,
    /// The separately issued share asset, where positions are held as shares.
    pub share_token: Option<AssetId>,
    /// Sum of all positions.
    pub total_units: i128,
    /// Signed accrual rate per period.
    pub rate: i128,
    /// The accrual index as of `last_block`.
    pub index: i128,
    pub last_block: u32,
    pub admin: Identity,
    pub target_raid_interval: u32,
    pub last_raid_block: u32,
    pub positions: Ledger,
    /// Offering `id` is stored at `id - 1`.
    pub voyages: Vec<Voyage>,
}

impl Vault {
    pub open spec fn wf(&self) -> bool {
        &&& self.params.wf()
        &&& self.positions.wf()
        &&& self.total_units == self.positions.total()
        &&& self.voyages@.len() <= i32::MAX
        &&& forall|i: int| 0 <= i < self.voyages@.len() ==> (#[trigger] self.voyages@[i]).wf()
    }

    /// The caller's position, in units.
    pub open spec fn position(&self, who: Identity) -> int {
        self.positions.units_of(who)
    }

    pub open spec fn offering_exists(&self, id: i32) -> bool {
        1 <= id <= self.voyages@.len()
    }

    /// The record of offering `id`, if there is one.
    pub open spec fn offering(&self, id: i32) -> Option<VoyageInfo> {
        if self.offering_exists(id) {
            Some(self.voyages@[id - 1].info)
        } else {
            None
        }
    }

    /// The units of offering `id` that `who` funded and has not redeemed.
    pub open spec fn voyage_units(&self, who: Identity, id: i32) -> int {
        if self.offering_exists(id) {
            self.voyages@[id - 1].voyagers.units_of(who)
        } else {
            0
        }
    }

    /// Whether the index can be rolled forward to `now`.
    pub open spec fn can_accrue(&self, now: u32) -> bool {
        now >= self.last_block && accrual_in_range(
            self.index as int,
            self.rate as int,
            now - self.last_block,
            self.params.accrual_num as int,
            self.params.accrual_den as int,
        )
    }

    /// The index rolled forward to `now`.
    pub open spec fn index_at(&self, now: u32) -> int {
        accrued_index(
            self.index as int,
            self.rate as int,
            now - self.last_block,
            self.params.accrual_num as int,
            self.params.accrual_den as int,
        )
    }

    /// The fields that only initialization and the admin operations change.
    pub open spec fn same_settings(&self, other: &Vault) -> bool {
        &&& self.params == other.params
        &&& self.base_token == other.base_token
        &&& self.share_token == other.share_token
        &&& self.admin == other.admin
        &&& self.target_raid_interval == other.target_raid_interval
        &&& self.last_raid_block == other.last_raid_block
    }

    pub open spec fn same_positions(&self, other: &Vault) -> bool {
        self.total_units == other.total_units && self.positions == other.positions
    }

    pub open spec fn same_accrual(&self, other: &Vault) -> bool {
        self.rate == other.rate && self.index == other.index && self.last_block == other.last_block
    }

    /// A vault as `initialize` leaves it.
    pub open spec fn is_fresh(
        &self,
        params: VaultParams,
        caller: Identity,
        now: u32,
        base_token: AssetId,
        share_token: Option<AssetId>,
        rate: i128,
        target_raid_interval: u32,
    ) -> bool {
        &&& self.wf()
        &&& self.params == params
        &&& self.base_token == base_token
        &&& self.share_token == share_token
        &&& self.total_units == 0
        &&& forall|who: Identity| self.position(who) == 0
        &&& self.rate == rate
        &&& self.index == params.index_scale
        &&& self.last_block == now
        &&& self.admin == caller
        &&& self.target_raid_interval == target_raid_interval
        &&& self.last_raid_block == 0
        &&& self.voyages@.len() == 0
    }

    /// Sets up a vault in an empty slot, with the caller as admin and the index at its scale.
    pub fn initialize(
        slot: &mut Option<Vault>,
        params: VaultParams,
        caller: Identity,
        now: u32,
        base_token: AssetId,
        share_token: Option<AssetId>,
        rate: i128,
        target_raid_interval: u32,
    ) -> (r: Result<(), VaultError>)
        requires
            params.wf(),
        ensures
            old(slot).is_some() ==> r == Err::<(), VaultError>(VaultError::AlreadyInitialized)
                && *final(slot) == *old(slot),
            old(slot).is_none() ==> r is Ok && final(slot).is_some() && final(slot).unwrap().is_fresh(
                params,
                caller,
                now,
                base_token,
                share_token,
                rate,
                target_raid_interval,
            ),
    {
        if slot.is_some() {
            return Err(VaultError::AlreadyInitialized);
        }
        let v = Vault {
            params,
            base_token,
            share_token,
            total_units: 0,
            rate,
            index: params.index_scale,
            last_block: now,
            admin: caller,
            target_raid_interval,
            last_raid_block: 0,
            positions: Ledger::new(),
            voyages: Vec::new(),
        };
        *slot = Some(v);
        Ok(())
    }

    /// Why a deposit of `amount` at `now` would abort, if it would.
    pub open spec fn deposit_error(&self, now: u32, amount: i128) -> Option<VaultError> {
        if amount < 0 {
            Some(VaultError::NegativeAmount)
        } else if !self.can_accrue(now) || self.index_at(now) <= 0 {
            Some(VaultError::ArithmeticFault)
        } else if !fits_i128(amount * self.params.index_scale) {
            Some(VaultError::ArithmeticFault)
        } else if !fits_i128(
            self.total_units + units_for_deposit(
                amount as int,
                self.params.index_scale as int,
                self.index_at(now),
            ),
        ) {
            Some(VaultError::ArithmeticFault)
        } else {
            None
        }
    }

    /// Rolls the index forward to `now` and credits the caller `amount * scale / index`
    /// position units for `amount` of the base asset, which the host then debits from the
    /// caller. Returns the units credited.
    pub fn deposit(&mut self, caller: Identity, now: u32, amount: i128) -> (r: Result<i128, VaultError>)
        requires
            old(self).wf(),
        ensures
            final(self).wf(),
            r is Err <==> old(self).deposit_error(now, amount) is Some,
            r is Err ==> r == Err::<i128, VaultError>(old(self).deposit_error(now, amount).unwrap())
                && *final(self) == *old(self),
            r matches Ok(units) ==> {
                &&& units == units_for_deposit(
                    amount as int,
                    old(self).params.index_scale as int,
                    old(self).index_at(now),
                )
                &&& units >= 0
                &&& final(self).index == old(self).index_at(now)
                &&& (old(self).rate >= 0 ==> final(self).index >= old(self).index)
                &&& final(self).last_block == now
                &&& final(self).rate == old(self).rate
                &&& final(self).total_units == old(self).total_units + units
                &&& final(self).position(caller) == old(self).position(caller) + units
                &&& forall|o: Identity|
                    o != caller ==> final(self).position(o) == old(self).position(o)
                &&& final(self).same_settings(old(self))
                &&& final(self).voyages@ == old(self).voyages@
            },
    {
        if amount < 0 {
            return Err(VaultError::NegativeAmount);
        }
        let new_index = match accrue(
            self.index,
            self.rate,
            self.last_block,
            now,
            self.params.accrual_num,
            self.params.accrual_den,
        ) {
            Some(i) => i,
            None => return Err(VaultError::ArithmeticFault),
        };
        proof {
            if self.rate >= 0 {
                lemma_accrual_monotone(
                    self.index as int,
                    self.rate as int,
                    now - self.last_block,
                    self.params.accrual_num as int,
                    self.params.accrual_den as int,
                );
            }
        }
        if new_index <= 0 {
            return Err(VaultError::ArithmeticFault);
        }
        let units = match to_units(amount, self.params.index_scale, new_index) {
            Some(u) => u,
            None => return Err(VaultError::ArithmeticFault),
        };
        proof {
            assert(units >= 0) by (nonlinear_arith)
                requires
                    units == (amount * self.params.index_scale) / (new_index as int),
                    amount >= 0,
                    self.params.index_scale > 0,
                    new_index > 0,
            ;
            self.positions.lemma_within_total(caller);
        }
        let total = match self.total_units.checked_add(units) {
            Some(t) => t,
            None => return Err(VaultError::ArithmeticFault),
        };
        let current = self.positions.get(caller);
        self.positions.set(caller, current + units);
        self.total_units = total;
        self.index = new_index;
        self.last_block = now;
        Ok(units)
    }

    /// Why a withdrawal of `amount` units at `now` would abort, if it would.
    pub open spec fn withdraw_error(&self, caller: Identity, now: u32, amount: i128) -> Option<
        VaultError,
    > {
        if amount < 0 {
            Some(VaultError::NegativeAmount)
        } else if !self.can_accrue(now) {
            Some(VaultError::ArithmeticFault)
        } else if self.position(caller) < amount {
            Some(VaultError::InsufficientPosition)
        } else if self.index_at(now) < 0 || !fits_i128(amount * self.index_at(now)) {
            Some(VaultError::ArithmeticFault)
        } else {
            None
        }
    }

    /// Rolls the index forward to `now`, takes `amount` units from the caller's position and
    /// returns `amount * index / scale`, the base asset the host then mints to the caller.
    pub fn withdraw(&mut self, caller: Identity, now: u32, amount: i128) -> (r: Result<i128, VaultError>)
        requires
            old(self).wf(),
        ensures
            final(self).wf(),
            r is Err <==> old(self).withdraw_error(caller, now, amount) is Some,
            r is Err ==> r == Err::<i128, VaultError>(
                old(self).withdraw_error(caller, now, amount).unwrap(),
            ) && *final(self) == *old(self),
            r matches Ok(paid) ==> {
                &&& paid == base_for_withdrawal(
                    amount as int,
                    old(self).index_at(now),
                    old(self).params.index_scale as int,
                )
                &&& paid >= 0
                &&& final(self).index == old(self).index_at(now)
                &&& (old(self).rate >= 0 ==> final(self).index >= old(self).index)
                &&& final(self).last_block == now
                &&& final(self).rate == old(self).rate
                &&& final(self).total_units == old(self).total_units - amount
                &&& final(self).position(caller) == old(self).position(caller) - amount
                &&& forall|o: Identity|
                    o != caller ==> final(self).position(o) == old(self).position(o)
                &&& final(self).same_settings(old(self))
                &&& final(self).voyages@ == old(self).voyages@
            },
    {
        if amount < 0 {
            return Err(VaultError::NegativeAmount);
        }
        let new_index = match accrue(
            self.index,
            self.rate,
            self.last_block,
            now,
            self.params.accrual_num,
            self.params.accrual_den,
        ) {
            Some(i) => i,
            None => return Err(VaultError::ArithmeticFault),
        };
        proof {
            if self.rate >= 0 {
                lemma_accrual_monotone(
                    self.index as int,
                    self.rate as int,
                    now - self.last_block,
                    self.params.accrual_num as int,
                    self.params.accrual_den as int,
                );
            }
        }
        let current = self.positions.get(caller);
        if current < amount {
            return Err(VaultError::InsufficientPosition);
        }
        if new_index < 0 {
            return Err(VaultError::ArithmeticFault);
        }
        let paid = match to_base(amount, new_index, self.params.index_scale) {
            Some(p) => p,
            None => return Err(VaultError::ArithmeticFault),
        };
        proof {
            assert(paid >= 0) by (nonlinear_arith)
                requires
                    paid == (amount * new_index) / (self.params.index_scale as int),
                    amount >= 0,
                    self.params.index_scale > 0,
                    new_index >= 0,
            ;
            self.positions.lemma_within_total(caller);
        }
        self.positions.set(caller, current - amount);
        self.total_units = self.total_units - amount;
        self.index = new_index;
        self.last_block = now;
        Ok(paid)
    }
    /// Why the admin's creation of an offering at `now` would abort, if it would.
    pub open spec fn create_offering_error(&self, caller: Identity, now: u32) -> Option<VaultError> {
        if caller != self.admin {
            Some(VaultError::Unauthorized)
        } else if self.voyages@.len() >= i32::MAX || now + WEEK_IN_BLOCKS > u32::MAX {
            Some(VaultError::ArithmeticFault)
        } else {
            None
        }
    }

    /// Creates the next offering: `max_units` units at `price` funding units each, open until
    /// one week of blocks after `now`, none sold yet. Returns its id, one more than the last.
    pub fn create_offering(
        &mut self,
        caller: Identity,
        now: u32,
        vyg_asset: AssetId,
        price: i128,
        max_units: i128,
    ) -> (r: Result<i32, VaultError>)
        requires
            old(self).wf(),
        ensures
            final(self).wf(),
            r is Err <==> old(self).create_offering_error(caller, now) is Some,
            r is Err ==> r == Err::<i32, VaultError>(
                old(self).create_offering_error(caller, now).unwrap(),
            ) && *final(self) == *old(self),
            r matches Ok(id) ==> {
                &&& id == old(self).voyages@.len() + 1
                &&& final(self).voyages@.len() == id
                &&& final(self).voyages@.drop_last() == old(self).voyages@
                &&& final(self).offering(id) == Some(
                    VoyageInfo {
                        vyg_asset,
                        price,
                        max_vygs: max_units,
                        n_embarked: 0,
                        expiration: (now + WEEK_IN_BLOCKS) as u32,
                    },
                )
                &&& forall|who: Identity| final(self).voyage_units(who, id) == 0
                &&& final(self).same_settings(old(self))
                &&& final(self).same_accrual(old(self))
                &&& final(self).same_positions(old(self))
            },
    {
        if caller != self.admin {
            return Err(VaultError::Unauthorized);
        }
        if self.voyages.len() >= i32::MAX as usize {
            return Err(VaultError::ArithmeticFault);
        }
        let expiration = match now.checked_add(WEEK_IN_BLOCKS) {
            Some(e) => e,
            None => return Err(VaultError::ArithmeticFault),
        };
        let info = VoyageInfo { vyg_asset, price, max_vygs: max_units, n_embarked: 0, expiration };
        let id = self.voyages.len() as i32 + 1;
        self.voyages.push(Voyage { info, voyagers: Ledger::new() });
        Ok(id)
    }

    /// Why embarking on `units` units of offering `id` at `now` would abort, if it would.
    pub open spec fn embark_error(&self, now: u32, id: i32, units: i128) -> Option<VaultError> {
        if !self.offering_exists(id) {
            Some(VaultError::UnknownOffering)
        } else if now > self.offering(id).unwrap().expiration {
            Some(VaultError::OfferingExpired)
        } else if units < 0 {
            Some(VaultError::NegativeAmount)
        } else if self.offering(id).unwrap().max_vygs - self.offering(id).unwrap().n_embarked
            < units {
            Some(VaultError::OfferingCapacityExceeded)
        } else if !fits_i128(self.offering(id).unwrap().price * units) {
            Some(VaultError::ArithmeticFault)
        } else if self.offering(id).unwrap().price * units < 0 {
            Some(VaultError::NegativeAmount)
        } else {
            None
        }
    }

    /// How a successful embark on `units` units of offering `id` by `caller` changes the vault.
    pub open spec fn embarked(&self, after: &Vault, caller: Identity, id: i32, units: i128) -> bool {
        &&& after.offering(id) == Some(
            VoyageInfo {
                n_embarked: (self.offering(id).unwrap().n_embarked + units) as i128,
                ..self.offering(id).unwrap()
            },
        )
        &&& after.voyage_units(caller, id) == units
        &&& forall|o: Identity|
            o != caller ==> after.voyage_units(o, id) == self.voyage_units(o, id)
        &&& forall|j: i32| j != id ==> after.offering(j) == self.offering(j)
        &&& forall|o: Identity, j: i32|
            j != id ==> #[trigger] after.voyage_units(o, j) == self.voyage_units(o, j)
        &&& after.voyages@.len() == self.voyages@.len()
        &&& after.same_settings(self)
        &&& after.same_accrual(self)
        &&& after.same_positions(self)
    }

    /// Funds `units` units of offering `id`. The caller's outstanding units in it are set to
    /// `units`, replacing (not adding to) any earlier amount, and the units sold grow by
    /// `units`. Returns `price * units`, the funding asset the host then moves from the
    /// caller to the vault under the caller's allowance.
    pub fn embark(&mut self, caller: Identity, now: u32, id: i32, units: i128) -> (r: Result<
        i128,
        VaultError,
    >)
        requires
            old(self).wf(),
        ensures
            final(self).wf(),
            r is Err <==> old(self).embark_error(now, id, units) is Some,
            r is Err ==> r == Err::<i128, VaultError>(
                old(self).embark_error(now, id, units).unwrap(),
            ) && *final(self) == *old(self),
            r matches Ok(cost) ==> cost == old(self).offering(id).unwrap().price * units
                && old(self).embarked(final(self), caller, id, units),
    {
        if id < 1 || id as usize > self.voyages.len() {
            return Err(VaultError::UnknownOffering);
        }
        let k = (id - 1) as usize;
        let info = self.voyages[k].info;
        if now > info.expiration {
            return Err(VaultError::OfferingExpired);
        }
        if units < 0 {
            return Err(VaultError::NegativeAmount);
        }
        if info.max_vygs - info.n_embarked < units {
            return Err(VaultError::OfferingCapacityExceeded);
        }
        let cost = match info.price.checked_mul(units) {
            Some(c) => c,
            None => return Err(VaultError::ArithmeticFault),
        };
        if cost < 0 {
            return Err(VaultError::NegativeAmount);
        }
        self.voyages[k].info.n_embarked = info.n_embarked + units;
        self.voyages[k].voyagers.set(caller, units);
        Ok(cost)
    }

    /// Why redeeming the caller's units of offering `id` would abort, if it would.
    pub open spec fn redeem_error(&self, caller: Identity, id: i32) -> Option<VaultError> {
        if self.voyage_units(caller, id) == 0 {
            Some(VaultError::NoOutstandingPosition)
        } else if !fits_i128(self.voyage_units(caller, id) * self.params.payout_multiplier) {
            Some(VaultError::ArithmeticFault)
        } else {
            None
        }
    }

    /// Clears the caller's outstanding units of offering `id` and returns the payout, those
    /// units times the payout multiplier, which the host then mints to the caller. It does not
    /// depend on the block height: a position can be redeemed before, at or after expiration.
    pub fn redeem(&mut self, caller: Identity, id: i32) -> (r: Result<i128, VaultError>)
        requires
            old(self).wf(),
        ensures
            final(self).wf(),
            r is Err <==> old(self).redeem_error(caller, id) is Some,
            r is Err ==> r == Err::<i128, VaultError>(old(self).redeem_error(caller, id).unwrap())
                && *final(self) == *old(self),
            r matches Ok(paid) ==> {
                &&& paid == old(self).voyage_units(caller, id) * old(self).params.payout_multiplier
                &&& final(self).voyage_units(caller, id) == 0
                &&& forall|o: Identity|
                    o != caller ==> final(self).voyage_units(o, id) == old(self).voyage_units(o, id)
                &&& forall|o: Identity, j: i32|
                    j != id ==> #[trigger] final(self).voyage_units(o, j) == old(self).voyage_units(
                        o,
                        j,
                    )
                &&& forall|j: i32| final(self).offering(j) == old(self).offering(j)
                &&& final(self).voyages@.len() == old(self).voyages@.len()
                &&& final(self).same_settings(old(self))
                &&& final(self).same_accrual(old(self))
                &&& final(self).same_positions(old(self))
            },
    {
        if id < 1 || id as usize > self.voyages.len() {
            return Err(VaultError::NoOutstandingPosition);
        }
        let k = (id - 1) as usize;
        let units = self.voyages[k].voyagers.get(caller);
        if units == 0 {
            return Err(VaultError::NoOutstandingPosition);
        }
        let paid = match units.checked_mul(self.params.payout_multiplier) {
            Some(p) => p,
            None => return Err(VaultError::ArithmeticFault),
        };
        self.voyages[k].voyagers.set(caller, 0);
        Ok(paid)
    }
    /// Why the admin's rate change at `now` would abort, if it would.
    pub open spec fn set_rate_error(&self, caller: Identity, now: u32) -> Option<VaultError> {
        if caller != self.admin {
            Some(VaultError::Unauthorized)
        } else if !self.can_accrue(now) {
            Some(VaultError::ArithmeticFault)
        } else {
            None
        }
    }

    /// Rolls the index forward to `now` under the old rate, then replaces the rate.
    pub fn set_rate(&mut self, caller: Identity, now: u32, rate: i128) -> (r: Result<(), VaultError>)
        requires
            old(self).wf(),
        ensures
            final(self).wf(),
            r is Err <==> old(self).set_rate_error(caller, now) is Some,
            r is Err ==> r == Err::<(), VaultError>(old(self).set_rate_error(caller, now).unwrap())
                && *final(self) == *old(self),
            r is Ok ==> {
                &&& final(self).index == old(self).index_at(now)
                &&& (old(self).rate >= 0 ==> final(self).index >= old(self).index)
                &&& final(self).last_block == now
                &&& final(self).rate == rate
                &&& final(self).same_settings(old(self))
                &&& final(self).same_positions(old(self))
                &&& final(self).voyages@ == old(self).voyages@
            },
    {
        if caller != self.admin {
            return Err(VaultError::Unauthorized);
        }
        let new_index = match accrue(
            self.index,
            self.rate,
            self.last_block,
            now,
            self.params.accrual_num,
            self.params.accrual_den,
        ) {
            Some(i) => i,
            None => return Err(VaultError::ArithmeticFault),
        };
        proof {
            if self.rate >= 0 {
                lemma_accrual_monotone(
                    self.index as int,
                    self.rate as int,
                    now - self.last_block,
                    self.params.accrual_num as int,
                    self.params.accrual_den as int,
                );
            }
        }
        self.index = new_index;
        self.last_block = now;
        self.rate = rate;
        Ok(())
    }

    /// Hands the admin role to `new_admin`, at once and without confirmation.
    pub fn set_admin(&mut self, caller: Identity, new_admin: Identity) -> (r: Result<(), VaultError>)
        requires
            old(self).wf(),
        ensures
            final(self).wf(),
            r is Err <==> caller != old(self).admin,
            r is Err ==> r == Err::<(), VaultError>(VaultError::Unauthorized) && *final(self)
                == *old(self),
            r is Ok ==> *final(self) == (Vault { admin: new_admin, ..*old(self) }),
    {
        if caller != self.admin {
            return Err(VaultError::Unauthorized);
        }
        self.admin = new_admin;
        Ok(())
    }

    /// Sets the number of blocks the raid feature aims to leave between raids.
    pub fn set_target_raid_interval(&mut self, caller: Identity, interval: u32) -> (r: Result<
        (),
        VaultError,
    >)
        requires
            old(self).wf(),
        ensures
            final(self).wf(),
            r is Err <==> caller != old(self).admin,
            r is Err ==> r == Err::<(), VaultError>(VaultError::Unauthorized) && *final(self)
                == *old(self),
            r is Ok ==> *final(self) == (Vault { target_raid_interval: interval, ..*old(self) }),
    {
        if caller != self.admin {
            return Err(VaultError::Unauthorized);
        }
        self.target_raid_interval = interval;
        Ok(())
    }

    /// Authorizes moving `amount` of the vault's own holdings of `asset` to `to`; the host
    /// performs the transfer when this returns `Ok`. The vault's bookkeeping does not change.
    pub fn sweep_held_funds(&self, caller: Identity, asset: AssetId, to: Identity, amount: i128) -> (r:
        Result<(), VaultError>)
        ensures
            r is Err <==> caller != self.admin,
            r is Err ==> r == Err::<(), VaultError>(VaultError::Unauthorized),
    {
        if caller != self.admin {
            return Err(VaultError::Unauthorized);
        }
        Ok(())
    }

    /// Seizing another user's offering position is not available: every call fails with
    /// `NotImplemented` and nothing changes, `last_raid_block` included.
    ///
    /// The intended design, kept for when a deterministic, auditable randomness source exists:
    /// the raider pays 1% of the target position's units; the chance of success grows linearly
    /// with the blocks since the last raid over the target interval, capped at 12.5%.
    pub fn raid(&self, caller: Identity, id: i32, voyager: Identity) -> (r: Result<(), VaultError>)
        ensures
            r == Err::<(), VaultError>(VaultError::NotImplemented),
    {
        Err(VaultError::NotImplemented)
    }

    /// Display precision of positions and of the rate.
    pub fn get_decimals(&self) -> (r: u32)
        ensures
            r == self.params.decimals,
    {
        self.params.decimals
    }

    /// The position of `who`, in units; 0 for a user who never deposited.
    pub fn get_position(&self, who: Identity) -> (r: i128)
        requires
            self.wf(),
        ensures
            r == self.position(who),
    {
        self.positions.get(who)
    }

    /// The record of offering `id`, or `None` where no offering has that id.
    pub fn get_offering(&self, id: i32) -> (r: Option<VoyageInfo>)
        ensures
            r == self.offering(id),
    {
        if id < 1 || id as usize > self.voyages.len() {
            return None;
        }
        Some(self.voyages[(id - 1) as usize].info)
    }

    /// The outstanding units of offering `id` held by `who`; 0 where there are none.
    pub fn get_user_offering_position(&self, who: Identity, id: i32) -> (r: i128)
        requires
            self.wf(),
        ensures
            r == self.voyage_units(who, id),
    {
        if id < 1 || id as usize > self.voyages.len() {
            return 0;
        }
        let k = (id - 1) as usize;
        self.voyages[k].voyagers.get(who)
    }

    /// The block of the last raid; 0 while raids are not available.
    pub fn get_last_raid_block(&self) -> (r: u32)
        ensures
            r == self.last_raid_block,
    {
        self.last_raid_block
    }
}

} // verus!
