//! Bond-like offerings ("voyages"): fixed capacity, a closing block, and who funded how much.
use vstd::prelude::*;
use crate::ledger::Ledger;

verus! {

/// An asset's identity on the asset ledger.
pub type AssetId = u64;

/// Blocks an offering stays open after it is created: one week.
pub const WEEK_IN_BLOCKS: u32 = 100_800;

/// The public record of one offering.
#[derive(Clone, Copy, Debug, PartialEq, Eq, Structural)]
pub struct VoyageInfo {
    /// The asset paid to embark.
    pub vyg_asset: AssetId,
    /// Funding units owed per offering unit.
    pub price: i128,
    /// Units the offering can sell in all.
    pub max_vygs: i128,
    /// Units sold so far.
    pub n_embarked: i128,
    /// Last block at which embarking is allowed.
    pub expiration: u32,
}

impl VoyageInfo {
    /// Units sold stay between zero and the capacity; an offering created with a
    /// negative capacity never sells any.
    pub open spec fn within_capacity(&self) -> bool {
        &&& 0 <= self.n_embarked
        &&& (self.max_vygs >= 0 ==> self.n_embarked <= self.max_vygs)
        &&& (self.max_vygs < 0 ==> self.n_embarked == 0)
    }
}

/// An offering together with each user's outstanding units in it.
#[derive(Clone, Debug)]
pub struct Voyage {
    pub info: VoyageInfo,
    pub voyagers: Ledger,
}

impl Voyage {
    pub open spec fn wf(&self) -> bool {
        self.info.within_capacity() && self.voyagers.wf()
    }
}

} // verus!
