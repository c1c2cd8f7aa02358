//! The messages of the public operation surface, and the values the ledger
//! hands back to the host: query responses and outgoing bank transfers.

use vstd::prelude::*;

use crate::state::Config;

verus! {

/// Parameters of the initialization: the asset denomination, the reward rate
/// per second, the initial pause gate and the unbonding period in seconds.
/// The sender becomes both owner and chief pausing officer.
#[derive(Clone, Debug, PartialEq)]
pub struct InstantiateMsg {
    pub denom: String,
    pub reward_rate: u128,
    pub paused: bool,
    pub unbonding_period: u64,
}

/// The mutating operations.
#[derive(Clone, Debug, PartialEq)]
pub enum ExecuteMsg {
    AddStake {},
    Unbond { amount: u128 },
    RemoveStake {},
    ClaimRewards {},
    UpdateConfig { config: Config },
}

/// The read-only queries.
#[derive(Clone, Debug, PartialEq)]
pub enum QueryMsg {
    QueryStake { address: String },
    QueryRewards { address: String },
    QueryUnbondEntry { address: String },
    QueryConfig {},
    QueryState {},
}

/// The migration message; migration changes nothing.
#[derive(Clone, Debug, PartialEq)]
pub enum MigrateMsg {
    Migrate {},
}

/// Answer to an unbond-slot query: the stored slot plus whether its maturity
/// timestamp has passed at the queried time.
#[derive(Clone, Copy, Debug, PartialEq, Eq, Structural)]
pub struct UnbondResponse {
    pub unbound_amount: u128,
    pub expiration_timestamp: u64,
    pub is_valid: bool,
    pub expired: bool,
}

/// An instruction to the host to transfer `amount` of `denom` to
/// `to_address`, executed exactly once if the operation commits and not at
/// all if it fails.
#[derive(Clone, Debug, PartialEq)]
pub struct BankSend {
    pub to_address: String,
    pub denom: String,
    pub amount: u128,
}

} // verus!
