//! The reward accumulator and the settlement function.
//!
//! The pool keeps one global scaled counter, the reward-per-token
//! accumulator. Refreshing it advances it by the rewards accrued per staked
//! token since the last refresh; settling a user multiplies their principal
//! by the accumulator's advance since the user's own checkpoint. Every
//! arithmetic step is checked, and the contracts state the exact outcome,
//! error or value, for every input.

use vstd::prelude::*;

use crate::error::ContractError;
use crate::state::{Config, State, UserEntry, SCALE};

verus! {

/// Whole seconds elapsed between two nanosecond timestamps (sub-second
/// remainders accrue nothing, matching the per-second unit of the rate).
pub open spec fn elapsed_seconds(last_update_time: u64, now: u64) -> int
    recommends
        last_update_time <= now,
{
    (now - last_update_time) / (SCALE as int)
}

/// How much the accumulator advances at `now`: elapsed whole seconds times
/// the reward rate, scaled up by `SCALE` and divided by the pool size
/// (floor).
pub open spec fn accrued_per_token(state: State, rate: u128, now: u64) -> int
    recommends
        state.staked_balance > 0,
        state.last_update_time <= now,
{
    elapsed_seconds(state.last_update_time, now) * rate * SCALE / (state.staked_balance as int)
}

/// The refreshed accumulator value at `now`: unchanged for an empty pool (an
/// empty pool accrues nothing), otherwise advanced by the scaled accrual.
pub open spec fn reward_per_token_value(state: State, rate: u128, now: u64) -> int
    recommends
        state.staked_balance == 0 || state.last_update_time <= now,
{
    if state.staked_balance == 0 {
        state.reward_per_token_stored as int
    } else {
        state.reward_per_token_stored + accrued_per_token(state, rate, now)
    }
}

/// When the refresh succeeds on a non-empty pool: time has not run backwards
/// and neither intermediate product nor the final sum leaves `u128`.
pub open spec fn reward_per_token_ok(state: State, rate: u128, now: u64) -> bool {
    state.staked_balance == 0 || (
        state.last_update_time <= now
        && elapsed_seconds(state.last_update_time, now) * rate <= u128::MAX
        && elapsed_seconds(state.last_update_time, now) * rate * SCALE <= u128::MAX
        && reward_per_token_value(state, rate, now) <= u128::MAX
    )
}

/// The exact outcome of the refresh computation: the refreshed value, or
/// `Numerical` when time ran backwards, or `Overflow` when a checked step
/// left `u128`.
pub open spec fn reward_per_token_result(state: State, rate: u128, now: u64) -> Result<
    u128,
    ContractError,
> {
    if state.staked_balance == 0 {
        Ok(state.reward_per_token_stored)
    } else if now < state.last_update_time {
        Err(ContractError::Numerical)
    } else if !reward_per_token_ok(state, rate, now) {
        Err(ContractError::Overflow)
    } else {
        Ok(reward_per_token_value(state, rate, now) as u128)
    }
}

/// Recomputes the global reward-per-token accumulator at `now` without
/// persisting it.
pub fn reward_per_token(state: &State, config: &Config, now: u64) -> (r: Result<
    u128,
    ContractError,
>)
    ensures
        r == reward_per_token_result(*state, config.reward_rate, now),
{
    if state.staked_balance == 0 {
        return Ok(state.reward_per_token_stored);
    }
    let current_time: u128 = now as u128;
    let prev_update_time: u128 = state.last_update_time as u128;
    let delta_time_in_ns: u128 = match current_time.checked_sub(prev_update_time) {
        Some(res) => res,
        None => {
            return Err(ContractError::Numerical);
        },
    };
    let delta_time: u128 = delta_time_in_ns / SCALE;
    let rewards_per_time: u128 = match delta_time.checked_mul(config.reward_rate) {
        Some(res) => res,
        None => {
            return Err(ContractError::Overflow);
        },
    };
    let inflated_rewards_per_time: u128 = match rewards_per_time.checked_mul(SCALE) {
        Some(res) => res,
        None => {
            return Err(ContractError::Overflow);
        },
    };
    let inflated_relative_rewards_per_time: u128 = inflated_rewards_per_time
        / state.staked_balance;
    match state.reward_per_token_stored.checked_add(inflated_relative_rewards_per_time) {
        Some(res) => Ok(res),
        None => Err(ContractError::Overflow),
    }
}

/// A user's fully up-to-date unclaimed reward against an accumulator value:
/// the settled balance plus the principal times the accumulator's advance
/// since the user's checkpoint, scaled back down (floor).
pub open spec fn earned_value(user: UserEntry, reward_per_token: int) -> int
    recommends
        user.user_reward_per_token_paid <= reward_per_token,
{
    user.rewards + user.amount * (reward_per_token - user.user_reward_per_token_paid) / (
    SCALE as int)
}

/// The exact outcome of settlement: the earned value, an error propagated
/// from the refresh, or `Overflow` when the checkpoint exceeds the
/// accumulator or a checked step leaves `u128`.
pub open spec fn earned_result(user: UserEntry, state: State, rate: u128, now: u64) -> Result<
    u128,
    ContractError,
> {
    match reward_per_token_result(state, rate, now) {
        Err(e) => Err(e),
        Ok(rpt) => {
            if rpt < user.user_reward_per_token_paid {
                Err(ContractError::Overflow)
            } else if user.amount * (rpt - user.user_reward_per_token_paid) > u128::MAX {
                Err(ContractError::Overflow)
            } else if earned_value(user, rpt as int) > u128::MAX {
                Err(ContractError::Overflow)
            } else {
                Ok(earned_value(user, rpt as int) as u128)
            }
        },
    }
}

/// Pure settlement: computes one user's unclaimed reward at `now`, with no
/// side effect. Mutating operations persist its result; read-only queries
/// return it as is, so the displayed and the committed value cannot drift.
pub fn earned(user: &UserEntry, state: &State, config: &Config, now: u64) -> (r: Result<
    u128,
    ContractError,
>)
    ensures
        r == earned_result(*user, *state, config.reward_rate, now),
{
    let rpt: u128 = match reward_per_token(state, config, now) {
        Ok(res) => res,
        Err(e) => {
            return Err(e);
        },
    };
    let delta_reward: u128 = match rpt.checked_sub(user.user_reward_per_token_paid) {
        Some(res) => res,
        None => {
            return Err(ContractError::Overflow);
        },
    };
    let inflated_relative_delta_reward: u128 = match user.amount.checked_mul(delta_reward) {
        Some(res) => res,
        None => {
            return Err(ContractError::Overflow);
        },
    };
    let relative_delta_reward: u128 = inflated_relative_delta_reward / SCALE;
    match relative_delta_reward.checked_add(user.rewards) {
        Some(res) => Ok(res),
        None => Err(ContractError::Overflow),
    }
}

/// The exact outcome of a refresh that atomically applies a stake-balance
/// delta: the balance delta is checked first, then the accumulator refresh;
/// the refresh uses the balance before the delta, so past accrual is never
/// recomputed against the new pool size.
pub open spec fn update_rewards_result(
    state: State,
    rate: u128,
    stake_amount: u128,
    is_addition: bool,
    now: u64,
) -> Result<State, ContractError> {
    if is_addition && state.staked_balance + stake_amount > u128::MAX {
        Err(ContractError::Overflow)
    } else if !is_addition && state.staked_balance < stake_amount {
        Err(ContractError::Overflow)
    } else {
        let new_staked_balance = if is_addition {
            (state.staked_balance + stake_amount) as u128
        } else {
            (state.staked_balance - stake_amount) as u128
        };
        match reward_per_token_result(state, rate, now) {
            Err(e) => Err(e),
            Ok(rpt) => Ok(
                (State {
                    reward_per_token_stored: rpt,
                    last_update_time: now,
                    staked_balance: new_staked_balance,
                }),
            ),
        }
    }
}

/// Refreshes the accumulator at `now` and applies a stake-balance delta
/// atomically with it. This must be the first effect of every mutating
/// operation, before any user-local update. On success the accumulator never
/// decreases.
pub fn update_rewards(
    state: &State,
    config: &Config,
    stake_amount: u128,
    is_addition: bool,
    now: u64,
) -> (r: Result<State, ContractError>)
    ensures
        r == update_rewards_result(*state, config.reward_rate, stake_amount, is_addition, now),
        (r matches Ok(st2) ==> st2.reward_per_token_stored >= state.reward_per_token_stored),
        (r matches Ok(st2) ==> st2.last_update_time == now),
{
    let new_staked_balance: u128 = if is_addition {
        match state.staked_balance.checked_add(stake_amount) {
            Some(res) => res,
            None => {
                return Err(ContractError::Overflow);
            },
        }
    } else {
        match state.staked_balance.checked_sub(stake_amount) {
            Some(res) => res,
            None => {
                return Err(ContractError::Overflow);
            },
        }
    };
    let rpt: u128 = match reward_per_token(state, config, now) {
        Ok(res) => res,
        Err(e) => {
            return Err(e);
        },
    };
    proof {
        if state.staked_balance > 0 {
            crate::laws::lemma_accrued_per_token_nonnegative(*state, config.reward_rate, now);
        }
    }
    Ok(
        State {
            reward_per_token_stored: rpt,
            last_update_time: now,
            staked_balance: new_staked_balance,
        },
    )
}

} // verus!
