//! A staking ledger with continuous, lazily settled reward accrual and a
//! timed unbonding queue.
//!
//! Users deposit a fungible asset, accrue rewards proportional to their share
//! of the total staked pool over time, can request to unbond a portion of
//! their stake (which stops it from earning further rewards and starts a
//! maturity timer), and can withdraw unbonded funds only after the timer
//! elapses. A two-tier governance scheme splits control between a full owner
//! and a restricted pausing officer.
//!
//! The crate is pure: every operation is a function from the loaded state,
//! the caller's identity and the current block time to the new state and the
//! outgoing bank transfer, so the host that persists the records and performs
//! the transfers stays outside.

pub mod contract;
pub mod error;
pub mod laws;
pub mod msg;
pub mod rewards;
pub mod state;
