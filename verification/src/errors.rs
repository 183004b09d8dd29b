//! The error taxonomy of the ledger core.
//!
//! Every failure aborts the whole operation: no state transition is produced
//! beside an error, so there is nothing partial for the host to commit.

use vstd::prelude::*;

verus! {

/// Why an operation was refused. Each kind is terminal for the operation
/// that raised it; none is recovered internally.
#[derive(Clone, Copy, Debug, PartialEq, Eq, Structural)]
pub enum StakingError {
    /// The caller of an administrator-only operation is not the pool's
    /// administrator.
    Unauthorized,
    /// An unstake amount exceeds the participant's staked balance.
    InsufficientFunds,
    /// A stake or unstake amount of zero was supplied.
    ZeroAmount,
    /// A claim found zero pending rewards after accrual settlement.
    NoRewardsAccrued,
    /// Adding the accrued reward to the pending balance would exceed the
    /// representable range; never silently saturated or wrapped.
    Overflow,
}

} // verus!
