//! The persisted records of the ledger: the governance configuration, the
//! global accrual state, one stake entry per user and one unbond slot per
//! user. The host keeps them in its key-value store; here they are plain
//! values.

use vstd::prelude::*;

verus! {

/// Fixed-point precision factor for the reward-per-token accumulator, and
/// also the number of nanoseconds in a second (the reward rate is stated per
/// second while timestamps are in nanoseconds).
pub const SCALE: u128 = 1_000_000_000;

/// Nanoseconds in a second, for maturity-timer arithmetic on `u64`
/// timestamps.
pub const NANOS_PER_SECOND: u64 = 1_000_000_000;

/// Governance configuration, created at initialization and replaced only by
/// governance operations. `owner` has full control; `chief_pausing_officer`
/// may only reassign itself and flip `paused`. The reward denomination is
/// always `denom`. `reward_rate` is reward units per second;
/// `unbonding_period` is in seconds.
#[derive(Clone, Debug, PartialEq)]
pub struct Config {
    pub owner: String,
    pub chief_pausing_officer: String,
    pub denom: String,
    pub reward_rate: u128,
    pub paused: bool,
    pub unbonding_period: u64,
}

/// The global accrual state. `reward_per_token_stored` is the monotonically
/// non-decreasing scaled accumulator; `last_update_time` is the nanosecond
/// timestamp of its last refresh; `staked_balance` is the sum of all live
/// per-user principal, amounts moved to the unbond queue excluded.
#[derive(Clone, Copy, Debug, PartialEq, Eq, Structural)]
pub struct State {
    pub reward_per_token_stored: u128,
    pub last_update_time: u64,
    pub staked_balance: u128,
}

/// One user's stake ledger entry: currently staked principal, settled but
/// unclaimed rewards, and the accumulator value at the last settlement.
#[derive(Clone, Copy, Debug, PartialEq, Eq, Structural)]
pub struct UserEntry {
    pub amount: u128,
    pub rewards: u128,
    pub user_reward_per_token_paid: u128,
}

/// One user's single unbond slot: principal pending withdrawal, its maturity
/// timestamp in nanoseconds, and whether a withdrawal is currently pending.
/// A cleared slot keeps its stale timestamp with `is_valid` false.
#[derive(Clone, Copy, Debug, PartialEq, Eq, Structural)]
pub struct UnbondEntry {
    pub unbound_amount: u128,
    pub expiration_timestamp: u64,
    pub is_valid: bool,
}

/// A coin attached to a message: a denomination and an amount.
#[derive(Clone, Debug, PartialEq)]
pub struct Coin {
    pub denom: String,
    pub amount: u128,
}

impl UserEntry {
    /// The implicit record of a user that never deposited: all zero.
    pub open spec fn spec_default() -> UserEntry {
        UserEntry { amount: 0, rewards: 0, user_reward_per_token_paid: 0 }
    }
}

impl Default for UserEntry {
    fn default() -> (r: UserEntry)
        ensures
            r == UserEntry::spec_default(),
    {
        UserEntry { amount: 0, rewards: 0, user_reward_per_token_paid: 0 }
    }
}

impl UnbondEntry {
    /// The implicit slot of a user that never requested unbonding: empty and
    /// not pending.
    pub open spec fn spec_default() -> UnbondEntry {
        UnbondEntry { unbound_amount: 0, expiration_timestamp: 0, is_valid: false }
    }
}

impl Default for UnbondEntry {
    fn default() -> (r: UnbondEntry)
        ensures
            r == UnbondEntry::spec_default(),
    {
        UnbondEntry { unbound_amount: 0, expiration_timestamp: 0, is_valid: false }
    }
}

/// The stored entry of a user, or the implicit zero record when none exists.
pub open spec fn entry_or_default(user: Option<UserEntry>) -> UserEntry {
    match user {
        Some(u) => u,
        None => UserEntry::spec_default(),
    }
}

/// The stored unbond slot of a user, or the implicit empty slot when none
/// exists.
pub open spec fn slot_or_default(unbond: Option<UnbondEntry>) -> UnbondEntry {
    match unbond {
        Some(s) => s,
        None => UnbondEntry::spec_default(),
    }
}

} // verus!
