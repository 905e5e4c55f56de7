//! Reasons an operation aborts. Every abort leaves the state as it was.
use vstd::prelude::*;

verus! {

#[derive(Clone, Copy, Debug, PartialEq, Eq, Structural)]
pub enum VaultError {
    /// The state slot already holds a vault.
    AlreadyInitialized,
    /// A privileged operation was invoked by someone other than the admin.
    Unauthorized,
    /// A withdrawal asked for more units than the caller's position holds.
    InsufficientPosition,
    /// The asset ledger refused a debit for want of balance or allowance.
    InsufficientExternalBalance,
    /// The offering's window closed before the embark call.
    OfferingExpired,
    /// The offering has fewer units left than were requested.
    OfferingCapacityExceeded,
    /// The caller holds no units of the offering being redeemed.
    NoOutstandingPosition,
    /// No offering has the given id.
    UnknownOffering,
    /// An amount to be moved through the asset ledger was negative.
    NegativeAmount,
    /// Overflow, a clock that went backwards, an index of zero to divide by, or a negative index.
    ArithmeticFault,
    /// The operation is not available yet.
    NotImplemented,
}

} // verus!
