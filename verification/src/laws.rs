//! The laws of the ledger, stated and proved over the same spec functions
//! that the operations' contracts use.

use vstd::prelude::*;

use vstd::arithmetic::div_mod::{lemma_div_is_ordered, lemma_div_pos_is_pos};
use vstd::arithmetic::mul::{lemma_mul_inequality, lemma_mul_left_inequality, lemma_mul_nonnegative};

use crate::contract::{add_stake_result, query_stake_result, spec_find_funds};
use crate::error::ContractError;
use crate::rewards::{accrued_per_token, earned_value, elapsed_seconds, reward_per_token_value};
use crate::state::{Coin, Config, State, UserEntry, SCALE};

verus! {

/// A non-empty pool never accrues a negative amount per token.
pub proof fn lemma_accrued_per_token_nonnegative(state: State, rate: u128, now: u64)
    requires
        state.staked_balance > 0,
        state.last_update_time <= now,
    ensures
        accrued_per_token(state, rate, now) >= 0,
{
    let e = elapsed_seconds(state.last_update_time, now);
    lemma_div_pos_is_pos(now - state.last_update_time, SCALE as int);
    lemma_mul_nonnegative(e, rate as int);
    lemma_mul_nonnegative(e * rate, SCALE as int);
    lemma_div_pos_is_pos(e * rate * SCALE, state.staked_balance as int);
}

/// Law: the reward-per-token accumulator is non-decreasing over time for a
/// fixed, non-empty stake pool.
pub proof fn lemma_reward_per_token_monotonic(state: State, rate: u128, t1: u64, t2: u64)
    requires
        state.staked_balance > 0,
        state.last_update_time <= t1,
        t1 <= t2,
    ensures
        reward_per_token_value(state, rate, t1) <= reward_per_token_value(state, rate, t2),
{
    let last = state.last_update_time;
    let e1 = elapsed_seconds(last, t1);
    let e2 = elapsed_seconds(last, t2);
    lemma_div_pos_is_pos(t1 - last, SCALE as int);
    lemma_div_is_ordered(t1 - last, t2 - last, SCALE as int);
    lemma_mul_inequality(e1, e2, rate as int);
    lemma_mul_inequality(e1 * rate, e2 * rate, SCALE as int);
    lemma_div_is_ordered(e1 * rate * SCALE, e2 * rate * SCALE, state.staked_balance as int);
}

/// Law: a user's unclaimed reward is non-decreasing in the accumulator, so it
/// never shrinks between settlements while the accumulator only grows.
pub proof fn lemma_earned_monotonic(user: UserEntry, rpt1: int, rpt2: int)
    requires
        user.user_reward_per_token_paid <= rpt1,
        rpt1 <= rpt2,
    ensures
        earned_value(user, rpt1) <= earned_value(user, rpt2),
{
    let paid = user.user_reward_per_token_paid as int;
    if user.amount == 0 {
        assert(user.amount * (rpt1 - paid) == 0);
        assert(user.amount * (rpt2 - paid) == 0);
    } else {
        lemma_mul_left_inequality(user.amount as int, rpt1 - paid, rpt2 - paid);
        lemma_div_is_ordered(
            user.amount * (rpt1 - paid),
            user.amount * (rpt2 - paid),
            SCALE as int,
        );
    }
}

/// Law: for a fixed rate and a fixed, non-empty pool, a user's unclaimed
/// reward at a later time is never below the one at an earlier time, as long
/// as the user's checkpoint does not exceed the earlier accumulator value.
pub proof fn lemma_earned_monotonic_in_time(
    user: UserEntry,
    state: State,
    rate: u128,
    t1: u64,
    t2: u64,
)
    requires
        state.staked_balance > 0,
        state.last_update_time <= t1,
        t1 <= t2,
        user.user_reward_per_token_paid <= reward_per_token_value(state, rate, t1),
    ensures
        earned_value(user, reward_per_token_value(state, rate, t1)) <= earned_value(
            user,
            reward_per_token_value(state, rate, t2),
        ),
{
    lemma_reward_per_token_monotonic(state, rate, t1, t2);
    lemma_earned_monotonic(
        user,
        reward_per_token_value(state, rate, t1),
        reward_per_token_value(state, rate, t2),
    );
}

/// The sum of the staked principal over a sequence of user entries.
pub open spec fn total_principal(entries: Seq<UserEntry>) -> int
    decreases entries.len(),
{
    if entries.len() == 0 {
        0
    } else {
        entries.first().amount + total_principal(entries.drop_first())
    }
}

/// Replacing one entry moves the sum by the difference of the principals.
pub proof fn lemma_total_principal_update(entries: Seq<UserEntry>, i: int, e: UserEntry)
    requires
        0 <= i < entries.len(),
    ensures
        total_principal(entries.update(i, e)) == total_principal(entries) - entries[i].amount
            + e.amount,
    decreases entries.len(),
{
    let upd = entries.update(i, e);
    if i == 0 {
        assert(upd.first() == e);
        assert(upd.drop_first() =~= entries.drop_first());
    } else {
        assert(upd.first() == entries.first());
        assert(upd.drop_first() =~= entries.drop_first().update(i - 1, e));
        lemma_total_principal_update(entries.drop_first(), i - 1, e);
    }
}

/// Law: the pool's staked balance equals the sum of all live per-user
/// principal at every point between operations. Every operation touches one
/// user and moves the staked balance by exactly the change in that user's
/// principal — a deposit adds the deposit to both, an unbond request removes
/// the requested amount from both, and withdraw and claim change neither —
/// so a balance equal to the sum before the operation is equal to the sum
/// after it.
pub proof fn lemma_staked_balance_is_total_principal(
    entries: Seq<UserEntry>,
    i: int,
    new_entry: UserEntry,
    total: int,
    new_total: int,
)
    requires
        0 <= i < entries.len(),
        total == total_principal(entries),
        new_total - total == new_entry.amount - entries[i].amount,
    ensures
        new_total == total_principal(entries.update(i, new_entry)),
{
    lemma_total_principal_update(entries, i, new_entry);
}

/// Law: a deposit by a user with no prior entry and no unbond slot, followed
/// immediately by a stake query for that user, returns exactly the deposited
/// amount.
pub proof fn lemma_deposit_then_stake_query(
    config: Config,
    state: State,
    funds: Seq<Coin>,
    now: u64,
    st2: State,
    u2: UserEntry,
    amount: u128,
)
    requires
        spec_find_funds(funds, config.denom@) == Some(amount),
        add_stake_result(config, state, None, funds, now) == Ok::<
            (State, UserEntry),
            ContractError,
        >((st2, u2)),
    ensures
        query_stake_result(Some(u2), None) == Ok::<u128, ContractError>(amount),
{
}

} // verus!
