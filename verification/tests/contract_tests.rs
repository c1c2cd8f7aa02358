//! The ledger driven end to end through its pure operations: a local
//! variable stands in for each stored record, and each operation's returned
//! records replace them, as the host's storage would.

use staking_ledger::contract::{
    instantiate, query_rewards, query_stake, query_unbond_entries, try_add_stake, try_claim,
    try_remove_stake, try_unbond, try_update_config,
};
use staking_ledger::error::ContractError;
use staking_ledger::msg::InstantiateMsg;
use staking_ledger::state::{Coin, Config, State, UserEntry};

/// The block time, in nanoseconds, at which the scenarios start.
const T0: u64 = 1_571_797_419_879_305_533;

const SECOND: u64 = 1_000_000_000;

fn coins(amount: u128, denom: &str) -> Vec<Coin> {
    vec![Coin { denom: denom.to_string(), amount }]
}

fn init(reward_rate: u128, paused: bool, unbonding_period: u64) -> (Config, State) {
    let msg = InstantiateMsg {
        denom: "nanomobx".to_string(),
        reward_rate,
        paused,
        unbonding_period,
    };
    instantiate(msg, "creator".to_string(), T0)
}

#[test]
fn proper_initialization() {
    let (config, state) = init(0, false, 0);
    assert_eq!(
        Config {
            owner: "creator".to_string(),
            chief_pausing_officer: "creator".to_string(),
            denom: "nanomobx".to_string(),
            reward_rate: 0,
            paused: false,
            unbonding_period: 0,
        },
        config
    );
    assert_eq!(
        State { reward_per_token_stored: 0, last_update_time: T0, staked_balance: 0 },
        state
    );
}

#[test]
fn update_config() {
    let (old_config, _state) = init(0, false, 0);
    assert_eq!(
        Config {
            owner: "creator".to_string(),
            chief_pausing_officer: "creator".to_string(),
            denom: "nanomobx".to_string(),
            reward_rate: 0,
            paused: false,
            unbonding_period: 0,
        },
        old_config
    );
    let new_config = Config {
        owner: old_config.clone().owner,
        chief_pausing_officer: "CPO".to_string(),
        denom: old_config.clone().denom,
        reward_rate: 1,
        paused: old_config.paused,
        unbonding_period: 1,
    };
    let current_config =
        try_update_config(&old_config, &"creator".to_string(), new_config.clone()).unwrap();
    assert_eq!(new_config.clone(), current_config.clone());
    assert_ne!(old_config.clone(), current_config.clone());
}

#[test]
fn cpo_should_only_update_cpo_and_paused() {
    let (old_config, _state) = init(0, false, 0);

    // the owner hires a new chief pausing officer
    let creator_updated_config = Config {
        owner: old_config.clone().owner,
        chief_pausing_officer: "cpo".to_string(),
        denom: old_config.clone().denom,
        reward_rate: 1,
        paused: old_config.paused,
        unbonding_period: 1,
    };
    let config = try_update_config(
        &old_config,
        &"creator".to_string(),
        creator_updated_config.clone(),
    )
    .unwrap();

    // the officer tries to take over but fails
    let malicious_cpo_config = Config {
        owner: "cpo".to_string(),
        chief_pausing_officer: "cpo2".to_string(),
        denom: "nanomobx".to_string(),
        reward_rate: 1_000_000_000,
        paused: true,
        unbonding_period: 0,
    };
    let current_config =
        try_update_config(&config, &"cpo".to_string(), malicious_cpo_config.clone()).unwrap();

    assert_ne!(malicious_cpo_config.clone(), current_config.clone());
    assert_eq!(malicious_cpo_config.paused, current_config.paused);
    assert_eq!(
        malicious_cpo_config.chief_pausing_officer,
        current_config.chief_pausing_officer
    );
    assert_eq!(
        creator_updated_config.unbonding_period,
        current_config.unbonding_period
    );
    assert_eq!(creator_updated_config.reward_rate, current_config.reward_rate);
}

#[test]
fn add_stake() {
    let (config, state) = init(0, false, 0);
    let (_state, user) =
        try_add_stake(&config, &state, None, &coins(10, "nanomobx"), T0).unwrap();
    let value = query_stake(Some(user), None).unwrap();
    assert_eq!(10u128, value);
}

#[test]
fn unbond_and_remove_stake() {
    let (config, state) = init(0, false, 0);
    let (state, user) =
        try_add_stake(&config, &state, None, &coins(10, "nanomobx"), T0).unwrap();

    let (state, user, slot) = try_unbond(&config, &state, Some(user), None, 10, T0).unwrap();

    let value = query_unbond_entries(Some(slot), T0).unwrap();
    assert_eq!(true, value.is_valid);
    assert_eq!(T0, value.expiration_timestamp);
    assert_eq!(true, value.expired);

    let (_state, slot, _send) =
        try_remove_stake(&config, &state, Some(slot), &"anyone".to_string(), T0).unwrap();

    let value = query_unbond_entries(Some(slot), T0).unwrap();
    assert_eq!(false, value.is_valid);
    assert_eq!(T0, value.expiration_timestamp);
    assert_eq!(true, value.expired);

    let value = query_stake(Some(user), Some(slot)).unwrap();
    assert_eq!(0u128, value);
}

#[test]
fn unbond_twice() {
    let (config, state) = init(0, false, 0);
    let (state, user) =
        try_add_stake(&config, &state, None, &coins(10, "nanomobx"), T0).unwrap();

    let t3 = T0 + 3 * SECOND;
    let (state, user, slot) = try_unbond(&config, &state, Some(user), None, 10, t3).unwrap();

    let value = query_unbond_entries(Some(slot), t3).unwrap();
    assert_eq!(true, value.is_valid);
    assert_eq!(t3, value.expiration_timestamp);
    assert_eq!(true, value.expired);

    let (state, slot, _send) =
        try_remove_stake(&config, &state, Some(slot), &"anyone".to_string(), t3).unwrap();

    let value = query_unbond_entries(Some(slot), t3).unwrap();
    assert_eq!(false, value.is_valid);
    assert_eq!(t3, value.expiration_timestamp);

    let value = query_stake(Some(user), Some(slot)).unwrap();
    assert_eq!(0u128, value);

    let err = try_unbond(&config, &state, Some(user), Some(slot), 10, t3).unwrap_err();
    match err {
        ContractError::NoRecordAvailable => {},
        e => panic!("unexpected error: {:?}", e),
    }
}

#[test]
fn unbond_period() {
    let (config, state) = init(0, false, 300);
    let (state, user) =
        try_add_stake(&config, &state, None, &coins(10, "nanomobx"), T0).unwrap();

    let (state, user, slot) = try_unbond(&config, &state, Some(user), None, 10, T0).unwrap();

    let expiration_timestamp = T0 + 300 * SECOND;
    let value = query_unbond_entries(Some(slot), T0).unwrap();
    assert_eq!(true, value.is_valid);
    assert_eq!(expiration_timestamp, value.expiration_timestamp);
    assert_eq!(false, value.expired);

    let err =
        try_remove_stake(&config, &state, Some(slot), &"anyone".to_string(), T0).unwrap_err();
    match err {
        ContractError::BondedStake => {},
        e => panic!("unexpecter error: {:?}", e),
    }

    let value = query_unbond_entries(Some(slot), T0).unwrap();
    assert_eq!(true, value.is_valid);
    assert_eq!(expiration_timestamp, value.expiration_timestamp);
    assert_eq!(false, value.expired);

    let value = query_stake(Some(user), Some(slot)).unwrap();
    assert_eq!(10u128, value);

    let t300 = T0 + 300 * SECOND;
    let (_state, slot, _send) =
        try_remove_stake(&config, &state, Some(slot), &"anyone".to_string(), t300).unwrap();

    let value = query_unbond_entries(Some(slot), t300).unwrap();
    assert_eq!(false, value.is_valid);
    assert_eq!(expiration_timestamp, value.expiration_timestamp);
    assert_eq!(true, value.expired);

    let value = query_stake(Some(user), Some(slot)).unwrap();
    assert_eq!(0u128, value);
}

fn time_at_height(height: u64) -> u64 {
    ((5 * height) + 1) * SECOND
}

#[test]
fn check_result_claim_failure_due_to_high_reward_rate() {
    let msg = InstantiateMsg {
        denom: "nanomobx".to_string(),
        reward_rate: 1_000_000_000,
        paused: false,
        unbonding_period: 1,
    };
    let (config, state) = instantiate(msg, "creator".to_string(), time_at_height(1));

    let t2 = time_at_height(2);
    let (state, user1) =
        try_add_stake(&config, &state, None, &coins(10, "nanomobx"), t2).unwrap();
    let (state, user2) =
        try_add_stake(&config, &state, None, &coins(200, "nanomobx"), t2).unwrap();
    let (state, user3) =
        try_add_stake(&config, &state, None, &coins(20000, "nanomobx"), t2).unwrap();

    assert_eq!(
        user1,
        UserEntry { amount: 10, rewards: 0, user_reward_per_token_paid: 0 }
    );
    assert_eq!(
        user2,
        UserEntry { amount: 200, rewards: 0, user_reward_per_token_paid: 0 }
    );
    assert_eq!(
        user3,
        UserEntry { amount: 20000, rewards: 0, user_reward_per_token_paid: 0 }
    );

    // rewards so high that the queried balance of 200 cannot cover them
    let t12 = time_at_height(12);
    assert_eq!(
        try_claim(&config, &state, Some(user1), 200, &"user1".to_string(), t12),
        Err(ContractError::NoFundsAvailable)
    );
    assert_eq!(
        try_claim(&config, &state, Some(user2), 200, &"user2".to_string(), t12),
        Err(ContractError::NoFundsAvailable)
    );
    assert_eq!(
        try_claim(&config, &state, Some(user3), 200, &"user3".to_string(), t12),
        Err(ContractError::NoFundsAvailable)
    );
}

#[test]
fn claim_rewards() {
    let (config, state) = init(1, false, 1);
    let (state, anyone) =
        try_add_stake(&config, &state, None, &coins(10, "nanomobx"), T0).unwrap();
    let (state, _another) =
        try_add_stake(&config, &state, None, &coins(10, "nanomobx"), T0).unwrap();

    let t4 = T0 + 4 * SECOND;
    let value = query_rewards(&config, &state, Some(anyone), t4).unwrap();
    assert_eq!(2u128, value);

    let (state, anyone) =
        try_add_stake(&config, &state, Some(anyone), &coins(10, "nanomobx"), t4).unwrap();

    assert_eq!(state.last_update_time, t4);
    assert_eq!(state.staked_balance, 30u128);

    let value = query_rewards(&config, &state, Some(anyone), t4).unwrap();
    assert_eq!(2u128, value);

    let (state, anyone, _send) =
        try_claim(&config, &state, Some(anyone), 200, &"anyone".to_string(), t4).unwrap();

    let value = query_rewards(&config, &state, Some(anyone), t4).unwrap();
    assert_eq!(0u128, value);
}

#[test]
fn claim_rewards_right_after_stake() {
    let (config, state) = init(1, false, 1);
    let (state, anyone) =
        try_add_stake(&config, &state, None, &coins(10, "nanomobx"), T0).unwrap();

    let t4 = T0 + 4 * SECOND;
    let value = query_rewards(&config, &state, Some(anyone), t4).unwrap();
    assert_eq!(4u128, value);

    let (state, anyone, send) =
        try_claim(&config, &state, Some(anyone), 200, &"anyone".to_string(), t4).unwrap();

    assert_eq!(send.to_address, "anyone".to_string());
    assert_eq!(send.denom, "nanomobx".to_string());
    assert_eq!(send.amount, 4u128);

    let value = query_rewards(&config, &state, Some(anyone), t4).unwrap();
    assert_eq!(0u128, value);
}

#[test]
fn pause_and_auth() {
    let (config, state) = init(1, true, 1);

    let err = try_add_stake(&config, &state, None, &coins(10, "nanomobx"), T0).unwrap_err();
    match err {
        ContractError::ContractPaused => {},
        e => panic!("unexpecter error: {:?}", e),
    }

    let new_config = Config {
        owner: "creator".to_string(),
        chief_pausing_officer: "CPO".to_string(),
        denom: "nanomobx".to_string(),
        reward_rate: 1,
        paused: false,
        unbonding_period: 1,
    };

    let auth_err =
        try_update_config(&config, &"anyone".to_string(), new_config.clone()).unwrap_err();
    match auth_err {
        ContractError::Unauthorized => {},
        e => panic!("unexpecter error: {:?}", e),
    }

    let config = try_update_config(&config, &"creator".to_string(), new_config).unwrap();
    let (_state, user) =
        try_add_stake(&config, &state, None, &coins(10, "nanomobx"), T0).unwrap();

    let value = query_stake(Some(user), None).unwrap();
    assert_eq!(10u128, value);
}
