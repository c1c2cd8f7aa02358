//! Structured rejections. Every failing operation aborts with one of these
//! and no state change; the caller decides whether to resubmit.

use vstd::prelude::*;

verus! {

/// The reasons an operation can be rejected.
#[derive(Clone, Copy, Debug, PartialEq, Eq, Structural)]
pub enum ContractError {
    /// A checked addition, subtraction or multiplication left its type's
    /// range.
    Overflow,
    /// Time ran backwards relative to the stored last update, or a checked
    /// division failed.
    Numerical,
    /// A governance update came from neither the owner nor the chief pausing
    /// officer.
    Unauthorized,
    /// A deposit carried no coin of the configured denomination or a zero
    /// amount, or a claim exceeded the solvent surplus.
    NoFundsAvailable,
    /// A query named a user with no stored record.
    UserNotFound,
    /// A claim found neither settled nor freshly accrued rewards.
    NoRewardsAvailable,
    /// An unbond request exceeded the user's current principal.
    InsufficientFunds,
    /// A record that an operation relies on was missing mid-operation;
    /// defensive, signals a broken invariant.
    InvalidState,
    /// An unbond request named a user with no stake.
    NoRecordAvailable,
    /// A withdrawal was attempted with no valid pending slot or before the
    /// slot's maturity.
    BondedStake,
    /// An unbond request for a zero amount.
    ZeroAmountUnbond,
    /// A deposit was attempted while the pool is paused.
    ContractPaused,
}

} // verus!
