//! The public operations of the ledger: the four mutating operations, the
//! governance update and the read-only queries, each a pure function from
//! the loaded records, the caller and the current time to the new records
//! and the outgoing transfer.

use vstd::prelude::*;

use crate::error::ContractError;
use crate::msg::{BankSend, InstantiateMsg, UnbondResponse};
use crate::rewards::{earned, earned_result, update_rewards, update_rewards_result};
use crate::state::{
    entry_or_default, slot_or_default, Coin, Config, State, UnbondEntry, UserEntry,
    NANOS_PER_SECOND,
};

verus! {

/// The amount of the first coin of the wanted denomination, if any.
pub open spec fn spec_find_funds(funds: Seq<Coin>, denom: Seq<char>) -> Option<u128>
    decreases funds.len(),
{
    if funds.len() == 0 {
        None
    } else if funds.first().denom@ == denom {
        Some(funds.first().amount)
    } else {
        spec_find_funds(funds.drop_first(), denom)
    }
}

proof fn lemma_find_funds_skip(funds: Seq<Coin>, denom: Seq<char>, i: int)
    requires
        0 <= i <= funds.len(),
        forall|j: int| 0 <= j < i ==> funds[j].denom@ != denom,
    ensures
        spec_find_funds(funds, denom) == spec_find_funds(funds.skip(i), denom),
    decreases i,
{
    if i > 0 {
        assert(funds.first().denom@ != denom);
        assert(funds.drop_first() =~= funds.skip(1));
        lemma_find_funds_skip(funds.skip(1), denom, i - 1);
        assert(funds.skip(1).skip(i - 1) =~= funds.skip(i));
    } else {
        assert(funds.skip(0) =~= funds);
    }
}

/// Finds the first coin of the wanted denomination among the attached funds.
pub fn find_funds(funds: &Vec<Coin>, denom: &String) -> (r: Option<u128>)
    ensures
        r == spec_find_funds(funds@, denom@),
{
    let mut i: usize = 0;
    while i < funds.len()
        invariant
            0 <= i <= funds@.len(),
            forall|j: int| 0 <= j < i ==> funds@[j].denom@ != denom@,
        decreases funds@.len() - i,
    {
        if funds[i].denom == *denom {
            proof {
                lemma_find_funds_skip(funds@, denom@, i as int);
                assert(funds@.skip(i as int).first() == funds@[i as int]);
            }
            return Some(funds[i].amount);
        }
        i = i + 1;
    }
    proof {
        lemma_find_funds_skip(funds@, denom@, funds@.len() as int);
        assert(funds@.skip(funds@.len() as int) =~= Seq::<Coin>::empty());
    }
    None
}

/// Creates the initial configuration and global state: the sender becomes
/// owner and chief pausing officer, the accumulator and the pool start at
/// zero, and the clock starts at `now`.
pub fn instantiate(msg: InstantiateMsg, sender: String, now: u64) -> (r: (Config, State))
    ensures
        r.0.owner@ == sender@,
        r.0.chief_pausing_officer@ == sender@,
        r.0.denom@ == msg.denom@,
        r.0.reward_rate == msg.reward_rate,
        r.0.paused == msg.paused,
        r.0.unbonding_period == msg.unbonding_period,
        r.1 == (State { reward_per_token_stored: 0, last_update_time: now, staked_balance: 0 }),
{
    let config = Config {
        owner: sender.clone(),
        chief_pausing_officer: sender,
        denom: msg.denom,
        reward_rate: msg.reward_rate,
        paused: msg.paused,
        unbonding_period: msg.unbonding_period,
    };
    let state = State { reward_per_token_stored: 0, last_update_time: now, staked_balance: 0 };
    (config, state)
}

/// The exact outcome of a deposit. Rejected while paused or without a
/// non-zero coin of the configured denomination; otherwise the refresh adds
/// the deposit to the pool, the user is settled against the refreshed
/// accumulator at their old weight, and the deposit joins their principal.
pub open spec fn add_stake_result(
    config: Config,
    state: State,
    user: Option<UserEntry>,
    funds: Seq<Coin>,
    now: u64,
) -> Result<(State, UserEntry), ContractError> {
    if config.paused {
        Err(ContractError::ContractPaused)
    } else {
        match spec_find_funds(funds, config.denom@) {
            None => Err(ContractError::NoFundsAvailable),
            Some(amount) => {
                if amount == 0 {
                    Err(ContractError::NoFundsAvailable)
                } else {
                    let prev_user = entry_or_default(user);
                    match update_rewards_result(state, config.reward_rate, amount, true, now) {
                        Err(e) => Err(e),
                        Ok(st2) => {
                            if prev_user.amount + amount > u128::MAX {
                                Err(ContractError::Overflow)
                            } else {
                                match earned_result(prev_user, st2, config.reward_rate, now) {
                                    Err(e) => Err(e),
                                    Ok(rw) => Ok(
                                        (
                                            st2,
                                            UserEntry {
                                                amount: (prev_user.amount + amount) as u128,
                                                rewards: rw,
                                                user_reward_per_token_paid:
                                                    st2.reward_per_token_stored,
                                            },
                                        ),
                                    ),
                                }
                            }
                        },
                    }
                }
            },
        }
    }
}

/// Deposit: refreshes the pool with the deposit added, settles the user at
/// their pre-deposit weight, then grows their principal by the deposit. On
/// success the pool and the user's principal both grow by exactly the
/// deposited amount.
pub fn try_add_stake(
    config: &Config,
    state: &State,
    user: Option<UserEntry>,
    funds: &Vec<Coin>,
    now: u64,
) -> (r: Result<(State, UserEntry), ContractError>)
    ensures
        r == add_stake_result(*config, *state, user, funds@, now),
        (r matches Ok(t) ==> (spec_find_funds(funds@, config.denom@) matches Some(amount)
            && t.0.staked_balance == state.staked_balance + amount && t.1.amount
            == entry_or_default(user).amount + amount && t.0.last_update_time == now
            && t.1.user_reward_per_token_paid == t.0.reward_per_token_stored)),
{
    if config.paused {
        return Err(ContractError::ContractPaused);
    }
    let amount: u128 = match find_funds(funds, &config.denom) {
        Some(a) => a,
        None => {
            return Err(ContractError::NoFundsAvailable);
        },
    };
    if amount == 0 {
        return Err(ContractError::NoFundsAvailable);
    }
    let prev_user = match user {
        Some(u) => u,
        None => UserEntry::default(),
    };
    let new_state = match update_rewards(state, config, amount, true, now) {
        Ok(s) => s,
        Err(e) => {
            return Err(e);
        },
    };
    let new_amount: u128 = match prev_user.amount.checked_add(amount) {
        Some(a) => a,
        None => {
            return Err(ContractError::Overflow);
        },
    };
    let new_rewards: u128 = match earned(&prev_user, &new_state, config, now) {
        Ok(w) => w,
        Err(e) => {
            return Err(e);
        },
    };
    Ok(
        (
            new_state,
            UserEntry {
                amount: new_amount,
                rewards: new_rewards,
                user_reward_per_token_paid: new_state.reward_per_token_stored,
            },
        ),
    )
}

/// The exact outcome of an unbond request. Rejected without stake, for a
/// zero amount, or beyond the user's principal; otherwise the refresh
/// removes the amount from the pool, the user is settled at their old
/// weight, the principal shrinks, and the amount folds into the user's
/// single unbond slot whose maturity restarts at `now` plus the unbonding
/// period.
pub open spec fn unbond_result(
    config: Config,
    state: State,
    user: Option<UserEntry>,
    unbond: Option<UnbondEntry>,
    amount: u128,
    now: u64,
) -> Result<(State, UserEntry, UnbondEntry), ContractError> {
    match user {
        None => Err(ContractError::NoRecordAvailable),
        Some(u) => {
            if u.amount == 0 {
                Err(ContractError::NoRecordAvailable)
            } else if amount == 0 {
                Err(ContractError::ZeroAmountUnbond)
            } else if u.amount < amount {
                Err(ContractError::InsufficientFunds)
            } else {
                match update_rewards_result(state, config.reward_rate, amount, false, now) {
                    Err(e) => Err(e),
                    Ok(st2) => {
                        match earned_result(u, st2, config.reward_rate, now) {
                            Err(e) => Err(e),
                            Ok(rw) => {
                                let prev_slot = slot_or_default(unbond);
                                if config.unbonding_period * NANOS_PER_SECOND > u64::MAX {
                                    Err(ContractError::Overflow)
                                } else if now + config.unbonding_period * NANOS_PER_SECOND
                                    > u64::MAX {
                                    Err(ContractError::Overflow)
                                } else if amount + prev_slot.unbound_amount > u128::MAX {
                                    Err(ContractError::Overflow)
                                } else {
                                    Ok(
                                        (
                                            st2,
                                            UserEntry {
                                                amount: (u.amount - amount) as u128,
                                                rewards: rw,
                                                user_reward_per_token_paid:
                                                    st2.reward_per_token_stored,
                                            },
                                            UnbondEntry {
                                                unbound_amount: (amount
                                                    + prev_slot.unbound_amount) as u128,
                                                expiration_timestamp: (now
                                                    + config.unbonding_period
                                                    * NANOS_PER_SECOND) as u64,
                                                is_valid: true,
                                            },
                                        ),
                                    )
                                }
                            },
                        }
                    },
                }
            }
        },
    }
}

/// Unbond request: removes the amount from the pool and the user's
/// principal, settles the user, and folds the amount into their single
/// unbond slot, restarting its maturity timer. Repeated requests accumulate
/// into the one slot and all mature together at the newest request's
/// maturity.
pub fn try_unbond(
    config: &Config,
    state: &State,
    user: Option<UserEntry>,
    unbond: Option<UnbondEntry>,
    amount: u128,
    now: u64,
) -> (r: Result<(State, UserEntry, UnbondEntry), ContractError>)
    ensures
        r == unbond_result(*config, *state, user, unbond, amount, now),
        (r matches Ok(t) ==> t.0.staked_balance == state.staked_balance - amount && t.1.amount
            == entry_or_default(user).amount - amount && t.2.unbound_amount == amount
            + slot_or_default(unbond).unbound_amount && t.2.is_valid && t.2.expiration_timestamp
            == now + config.unbonding_period * NANOS_PER_SECOND),
{
    let u = match user {
        Some(u) => u,
        None => {
            return Err(ContractError::NoRecordAvailable);
        },
    };
    if u.amount == 0 {
        return Err(ContractError::NoRecordAvailable);
    }
    if amount == 0 {
        return Err(ContractError::ZeroAmountUnbond);
    }
    if u.amount < amount {
        return Err(ContractError::InsufficientFunds);
    }
    let new_state = match update_rewards(state, config, amount, false, now) {
        Ok(s) => s,
        Err(e) => {
            return Err(e);
        },
    };
    let new_rewards: u128 = match earned(&u, &new_state, config, now) {
        Ok(w) => w,
        Err(e) => {
            return Err(e);
        },
    };
    let new_user = UserEntry {
        amount: u.amount - amount,
        rewards: new_rewards,
        user_reward_per_token_paid: new_state.reward_per_token_stored,
    };
    let prev_slot = match unbond {
        Some(s) => s,
        None => UnbondEntry::default(),
    };
    let unbonding_nanos: u64 = match config.unbonding_period.checked_mul(NANOS_PER_SECOND) {
        Some(n) => n,
        None => {
            return Err(ContractError::Overflow);
        },
    };
    let expiration_timestamp: u64 = match now.checked_add(unbonding_nanos) {
        Some(t) => t,
        None => {
            return Err(ContractError::Overflow);
        },
    };
    let unbound_amount: u128 = match amount.checked_add(prev_slot.unbound_amount) {
        Some(a) => a,
        None => {
            return Err(ContractError::Overflow);
        },
    };
    Ok(
        (
            new_state,
            new_user,
            UnbondEntry { unbound_amount, expiration_timestamp, is_valid: true },
        ),
    )
}

/// The exact outcome of a withdrawal, up to the transfer's recipient: the
/// refreshed state, the cleared slot (stale timestamp kept) and the paid
/// amount. Rejected while no valid slot is pending or before maturity. The
/// amount left the pool's balance at request time already, so the refresh is
/// stake-neutral.
pub open spec fn remove_stake_result(
    config: Config,
    state: State,
    unbond: Option<UnbondEntry>,
    now: u64,
) -> Result<(State, UnbondEntry, u128), ContractError> {
    let slot = slot_or_default(unbond);
    if !slot.is_valid || slot.expiration_timestamp > now {
        Err(ContractError::BondedStake)
    } else {
        match update_rewards_result(state, config.reward_rate, 0, false, now) {
            Err(e) => Err(e),
            Ok(st2) => Ok(
                (
                    st2,
                    UnbondEntry {
                        unbound_amount: 0,
                        expiration_timestamp: slot.expiration_timestamp,
                        is_valid: false,
                    },
                    slot.unbound_amount,
                ),
            ),
        }
    }
}

/// Withdrawal: after maturity, clears the user's unbond slot and instructs
/// the host to transfer the unbonded amount to the sender. The pool's staked
/// balance is unchanged — the amount was excluded at request time.
pub fn try_remove_stake(
    config: &Config,
    state: &State,
    unbond: Option<UnbondEntry>,
    sender: &String,
    now: u64,
) -> (r: Result<(State, UnbondEntry, BankSend), ContractError>)
    ensures
        (match remove_stake_result(*config, *state, unbond, now) {
            Err(e) => r == Err::<(State, UnbondEntry, BankSend), ContractError>(e),
            Ok(t) => r matches Ok(rt) && rt.0 == t.0 && rt.1 == t.1 && rt.2.amount == t.2
                && rt.2.to_address@ == sender@ && rt.2.denom@ == config.denom@,
        }),
        (r matches Ok(rt) ==> rt.0.staked_balance == state.staked_balance && rt.2.amount
            == slot_or_default(unbond).unbound_amount),
{
    let slot = match unbond {
        Some(s) => s,
        None => UnbondEntry::default(),
    };
    if !slot.is_valid || slot.expiration_timestamp > now {
        return Err(ContractError::BondedStake);
    }
    let new_state = match update_rewards(state, config, 0, false, now) {
        Ok(s) => s,
        Err(e) => {
            return Err(e);
        },
    };
    let cleared = UnbondEntry {
        unbound_amount: 0,
        expiration_timestamp: slot.expiration_timestamp,
        is_valid: false,
    };
    let send = BankSend {
        to_address: sender.clone(),
        denom: config.denom.clone(),
        amount: slot.unbound_amount,
    };
    Ok((new_state, cleared, send))
}

/// The exact outcome of a claim, up to the transfer's recipient: the
/// refreshed state, the user with settled rewards zeroed and checkpoint
/// bumped, and the payout. Rejected when nothing is claimable, and when the
/// payout or the already-settled balance exceeds the solvent surplus — the
/// host's asset balance minus the staked principal, which must never be paid
/// out as reward.
pub open spec fn claim_result(
    config: Config,
    state: State,
    user: Option<UserEntry>,
    contract_balance: u128,
    now: u64,
) -> Result<(State, UserEntry, u128), ContractError> {
    let u = entry_or_default(user);
    match update_rewards_result(state, config.reward_rate, 0, true, now) {
        Err(e) => Err(e),
        Ok(st2) => {
            match earned_result(u, st2, config.reward_rate, now) {
                Err(e) => Err(e),
                Ok(payout) => {
                    if u.rewards == 0 && payout == 0 {
                        Err(ContractError::NoRewardsAvailable)
                    } else if contract_balance < st2.staked_balance {
                        Err(ContractError::NoFundsAvailable)
                    } else if u.rewards > contract_balance - st2.staked_balance {
                        Err(ContractError::NoFundsAvailable)
                    } else if payout > contract_balance - st2.staked_balance {
                        Err(ContractError::NoFundsAvailable)
                    } else {
                        Ok(
                            (
                                st2,
                                UserEntry {
                                    amount: u.amount,
                                    rewards: 0,
                                    user_reward_per_token_paid: st2.reward_per_token_stored,
                                },
                                payout,
                            ),
                        )
                    }
                },
            }
        },
    }
}

/// Claim: refreshes the pool (stake-neutral), settles the user, checks the
/// payout against the solvent surplus, zeroes the settled rewards (principal
/// untouched) and instructs the host to pay the settled amount out.
pub fn try_claim(
    config: &Config,
    state: &State,
    user: Option<UserEntry>,
    contract_balance: u128,
    sender: &String,
    now: u64,
) -> (r: Result<(State, UserEntry, BankSend), ContractError>)
    ensures
        (match claim_result(*config, *state, user, contract_balance, now) {
            Err(e) => r == Err::<(State, UserEntry, BankSend), ContractError>(e),
            Ok(t) => r matches Ok(rt) && rt.0 == t.0 && rt.1 == t.1 && rt.2.amount == t.2
                && rt.2.to_address@ == sender@ && rt.2.denom@ == config.denom@,
        }),
        (r matches Ok(rt) ==> rt.0.staked_balance == state.staked_balance && rt.1.amount
            == entry_or_default(user).amount && rt.1.rewards == 0 && rt.2.amount
            + rt.0.staked_balance <= contract_balance),
{
    let u = match user {
        Some(u) => u,
        None => UserEntry::default(),
    };
    let new_state = match update_rewards(state, config, 0, true, now) {
        Ok(s) => s,
        Err(e) => {
            return Err(e);
        },
    };
    let payout: u128 = match earned(&u, &new_state, config, now) {
        Ok(w) => w,
        Err(e) => {
            return Err(e);
        },
    };
    if u.rewards == 0 && payout == 0 {
        return Err(ContractError::NoRewardsAvailable);
    }
    let available_funds: u128 = match contract_balance.checked_sub(new_state.staked_balance) {
        Some(a) => a,
        None => {
            return Err(ContractError::NoFundsAvailable);
        },
    };
    if u.rewards > available_funds {
        return Err(ContractError::NoFundsAvailable);
    }
    if payout > available_funds {
        return Err(ContractError::NoFundsAvailable);
    }
    let new_user = UserEntry {
        amount: u.amount,
        rewards: 0,
        user_reward_per_token_paid: new_state.reward_per_token_stored,
    };
    let send = BankSend {
        to_address: sender.clone(),
        denom: config.denom.clone(),
        amount: payout,
    };
    Ok((new_state, new_user, send))
}

/// Governance update: the owner replaces the whole configuration; the chief
/// pausing officer, when not also the owner, has only the officer
/// reassignment and the pause gate honored from the submitted candidate;
/// anyone else is rejected.
pub fn try_update_config(old_config: &Config, sender: &String, candidate: Config) -> (r: Result<
    Config,
    ContractError,
>)
    ensures
        (old_config.owner@ == sender@ ==> r == Ok::<Config, ContractError>(candidate)),
        (old_config.owner@ != sender@ && old_config.chief_pausing_officer@ == sender@ ==> (r
            matches Ok(c) && c.owner@ == old_config.owner@ && c.chief_pausing_officer@
            == candidate.chief_pausing_officer@ && c.denom@ == old_config.denom@ && c.reward_rate
            == old_config.reward_rate && c.paused == candidate.paused && c.unbonding_period
            == old_config.unbonding_period)),
        (old_config.owner@ != sender@ && old_config.chief_pausing_officer@ != sender@ ==> r
            == Err::<Config, ContractError>(ContractError::Unauthorized)),
{
    if old_config.owner == *sender {
        Ok(candidate)
    } else if old_config.chief_pausing_officer == *sender {
        Ok(
            Config {
                owner: old_config.owner.clone(),
                chief_pausing_officer: candidate.chief_pausing_officer,
                denom: old_config.denom.clone(),
                reward_rate: old_config.reward_rate,
                paused: candidate.paused,
                unbonding_period: old_config.unbonding_period,
            },
        )
    } else {
        Err(ContractError::Unauthorized)
    }
}

/// The exact answer of the rewards query: the settlement value at `now`,
/// with the settlement's own errors reported as they are, or `UserNotFound`
/// when the user has no record. The one settlement function answers both the
/// mutating operations, which persist its result, and this query, which
/// does not, so the displayed and the committed value cannot drift.
pub open spec fn query_rewards_result(
    config: Config,
    state: State,
    user: Option<UserEntry>,
    now: u64,
) -> Result<u128, ContractError> {
    match user {
        None => Err(ContractError::UserNotFound),
        Some(u) => earned_result(u, state, config.reward_rate, now),
    }
}

/// Read-only: a user's unclaimed reward at `now`, without persisting the
/// settlement. A function of the stored records and the queried time alone,
/// so two identical queries agree.
pub fn query_rewards(config: &Config, state: &State, user: Option<UserEntry>, now: u64) -> (r:
    Result<u128, ContractError>)
    ensures
        r == query_rewards_result(*config, *state, user, now),
{
    let u = match user {
        Some(u) => u,
        None => {
            return Err(ContractError::UserNotFound);
        },
    };
    earned(&u, state, config, now)
}

/// The exact answer of the stake query: the user's staked principal plus
/// whatever sits in the unbond queue, or `UserNotFound` when the user has no
/// record.
pub open spec fn query_stake_result(user: Option<UserEntry>, unbond: Option<UnbondEntry>) -> Result<
    u128,
    ContractError,
> {
    match user {
        None => Err(ContractError::UserNotFound),
        Some(u) => {
            let slot = slot_or_default(unbond);
            if u.amount + slot.unbound_amount > u128::MAX {
                Err(ContractError::Overflow)
            } else {
                Ok((u.amount + slot.unbound_amount) as u128)
            }
        },
    }
}

/// Read-only: a user's total position, staked plus unbonding. A function of
/// the stored records alone, so two identical queries agree.
pub fn query_stake(user: Option<UserEntry>, unbond: Option<UnbondEntry>) -> (r: Result<
    u128,
    ContractError,
>)
    ensures
        r == query_stake_result(user, unbond),
{
    let u = match user {
        Some(u) => u,
        None => {
            return Err(ContractError::UserNotFound);
        },
    };
    let slot = match unbond {
        Some(s) => s,
        None => UnbondEntry::default(),
    };
    match u.amount.checked_add(slot.unbound_amount) {
        Some(total) => Ok(total),
        None => Err(ContractError::Overflow),
    }
}

/// The exact answer of the unbond-slot query: the stored slot with its
/// maturity compared against the queried time, or `UserNotFound` when the
/// user never unbonded.
pub open spec fn query_unbond_result(unbond: Option<UnbondEntry>, now: u64) -> Result<
    UnbondResponse,
    ContractError,
> {
    match unbond {
        None => Err(ContractError::UserNotFound),
        Some(slot) => Ok(
            (UnbondResponse {
                unbound_amount: slot.unbound_amount,
                expiration_timestamp: slot.expiration_timestamp,
                is_valid: slot.is_valid,
                expired: slot.expiration_timestamp <= now,
            }),
        ),
    }
}

/// Read-only: a user's unbond slot and whether it has matured at `now`. A
/// function of the stored slot and the queried time alone, so two identical
/// queries agree.
pub fn query_unbond_entries(unbond: Option<UnbondEntry>, now: u64) -> (r: Result<
    UnbondResponse,
    ContractError,
>)
    ensures
        r == query_unbond_result(unbond, now),
{
    let slot = match unbond {
        Some(s) => s,
        None => {
            return Err(ContractError::UserNotFound);
        },
    };
    Ok(
        UnbondResponse {
            unbound_amount: slot.unbound_amount,
            expiration_timestamp: slot.expiration_timestamp,
            is_valid: slot.is_valid,
            expired: slot.expiration_timestamp <= now,
        },
    )
}

} // verus!
