use reward_vault::deposit::deposit_sol;
use reward_vault::errors::ErrorCode;
use reward_vault::events::{DepositEvent, UserInitializedEvent, WithdrawEvent};
use reward_vault::initialize::{init_user, initialize_vault};
use reward_vault::state::{Config, Identity, UserAccount, Vault};
use reward_vault::utils::calculate_reward;
use reward_vault::withdraw::withdraw_sol;

fn id(tag: u8) -> Identity {
    Identity { bytes: [tag; 32] }
}

fn fresh_vault(rate: u64) -> (Config, Vault) {
    let (config, vault, _event) = initialize_vault(id(0), id(1), rate, 255);
    (config, vault)
}

#[test]
fn initialize_sets_config_and_empty_vault() {
    let (config, vault, event) = initialize_vault(id(7), id(8), 5, 254);
    assert_eq!(config.authority, id(7));
    assert_eq!(config.mint, id(8));
    assert_eq!(config.reward_rate, 5);
    assert_eq!(config.bump, 254);
    assert!(!vault.locked);
    assert_eq!(vault.amount_deposited, 0);
    assert_eq!(event.authority, id(7));
    assert_eq!(event.mint, id(8));
    assert_eq!(event.reward_rate, 5);
}

#[test]
fn init_user_zeroes_every_counter() {
    let (user, event) = init_user(id(9), 253);
    assert_eq!(user.user, id(9));
    assert_eq!(user.amount_deposited, 0);
    assert_eq!(user.reward_earned, 0);
    assert_eq!(user.shares_minted, 0);
    assert_eq!(user.bump, 253);
    assert_eq!(event, UserInitializedEvent { user: id(9) });
}

#[test]
fn deposit_mints_shares_at_rate_two() {
    let (config, mut vault) = fresh_vault(2);
    let (mut user, _) = init_user(id(2), 255);
    let event = deposit_sol(&config, &mut vault, &mut user, 1_000_000, 1_000_000).unwrap();
    assert_eq!(user.amount_deposited, 1_000_000);
    assert_eq!(user.reward_earned, 2_000_000);
    assert_eq!(user.shares_minted, 2_000_000);
    assert_eq!(vault.amount_deposited, 1_000_000);
    assert_eq!(
        event,
        DepositEvent { user: id(2), amount_sol: 1_000_000, shares_minted: 2_000_000 }
    );
}

#[test]
fn full_withdrawal_returns_every_counter_to_zero() {
    let (config, mut vault) = fresh_vault(2);
    let (mut user, _) = init_user(id(2), 255);
    deposit_sol(&config, &mut vault, &mut user, 1_000_000, 1_000_000).unwrap();
    let event = withdraw_sol(&config, &mut vault, &mut user, 1_000_000, 2_000_000).unwrap();
    assert_eq!(
        event,
        WithdrawEvent { user: id(2), amount_sol: 1_000_000, shares_burned: 2_000_000 }
    );
    assert_eq!(user.amount_deposited, 0);
    assert_eq!(user.reward_earned, 0);
    assert_eq!(user.shares_minted, 0);
    assert_eq!(vault.amount_deposited, 0);
}

#[test]
fn round_trip_restores_pre_deposit_state() {
    let (config, mut vault) = fresh_vault(7);
    let (mut user, _) = init_user(id(3), 255);
    deposit_sol(&config, &mut vault, &mut user, 500, 500).unwrap();
    let before_user = user;
    let before_vault = vault;
    let event = deposit_sol(&config, &mut vault, &mut user, 123, 123).unwrap();
    let custody = vault.amount_deposited;
    withdraw_sol(&config, &mut vault, &mut user, custody, event.shares_minted).unwrap();
    assert_eq!(user, before_user);
    assert_eq!(vault, before_vault);
}

#[test]
fn truncation_at_rate_three_is_deterministic() {
    let owner = id(4);
    let config = Config { authority: id(0), mint: id(1), reward_rate: 3, bump: 255 };
    let start_user = UserAccount {
        user: owner,
        amount_deposited: 1_000_000,
        reward_earned: 3_000_000,
        shares_minted: 3_000_000,
        bump: 255,
    };
    let start_vault = Vault { locked: false, amount_deposited: 1_000_000 };

    let mut user = start_user;
    let mut vault = start_vault;
    let event = withdraw_sol(&config, &mut vault, &mut user, 1_000_000, 1_000_001).unwrap();
    // 1,000,001 / 3 == 333,333 with the two remaining shares' worth truncated.
    assert_eq!(event.amount_sol, 333_333);
    assert_eq!(event.shares_burned, 1_000_001);
    assert_eq!(user.amount_deposited, 666_667);
    assert_eq!(user.reward_earned, 1_999_999);
    assert_eq!(user.shares_minted, 1_999_999);
    assert_eq!(vault.amount_deposited, 666_667);

    // The same withdrawal from the same state truncates identically.
    let mut user2 = start_user;
    let mut vault2 = start_vault;
    let event2 = withdraw_sol(&config, &mut vault2, &mut user2, 1_000_000, 1_000_001).unwrap();
    assert_eq!(event2.amount_sol, 333_333);
    assert_eq!(user2, user);
    assert_eq!(vault2, vault);
}

#[test]
fn deposit_overflow_leaves_ledgers_unchanged() {
    let (config, mut vault) = fresh_vault(2);
    let (mut user, _) = init_user(id(5), 255);
    let amount = u64::MAX / 2 + 1;
    let r = deposit_sol(&config, &mut vault, &mut user, u64::MAX, amount);
    assert_eq!(r, Err(ErrorCode::Overflow));
    assert_eq!(user, init_user(id(5), 255).0);
    assert_eq!(vault.amount_deposited, 0);
}

#[test]
fn deposit_counter_overflow_leaves_ledgers_unchanged() {
    let config = Config { authority: id(0), mint: id(1), reward_rate: 1, bump: 255 };
    let start_user = UserAccount {
        user: id(5),
        amount_deposited: u64::MAX - 10,
        reward_earned: u64::MAX - 10,
        shares_minted: u64::MAX - 10,
        bump: 255,
    };
    let start_vault = Vault { locked: false, amount_deposited: u64::MAX - 10 };
    let mut user = start_user;
    let mut vault = start_vault;
    let r = deposit_sol(&config, &mut vault, &mut user, u64::MAX, 11);
    assert_eq!(r, Err(ErrorCode::Overflow));
    assert_eq!(user, start_user);
    assert_eq!(vault, start_vault);
}

#[test]
fn deposit_beyond_live_balance_is_rejected() {
    let (config, mut vault) = fresh_vault(2);
    let (mut user, _) = init_user(id(6), 255);
    let r = deposit_sol(&config, &mut vault, &mut user, 99, 100);
    assert_eq!(r, Err(ErrorCode::InsufficientFunds));
    assert_eq!(user.amount_deposited, 0);
    assert_eq!(vault.amount_deposited, 0);
}

#[test]
fn withdrawing_more_shares_than_minted_underflows() {
    let (config, mut vault) = fresh_vault(2);
    let (mut user, _) = init_user(id(7), 255);
    deposit_sol(&config, &mut vault, &mut user, 1_000, 1_000).unwrap();
    let before_user = user;
    let before_vault = vault;
    let r = withdraw_sol(&config, &mut vault, &mut user, 1_000, 2_001);
    assert_eq!(r, Err(ErrorCode::Underflow));
    assert_eq!(user, before_user);
    assert_eq!(vault, before_vault);
}

#[test]
fn withdrawal_beyond_pool_custody_is_rejected() {
    let config = Config { authority: id(0), mint: id(1), reward_rate: 1, bump: 255 };
    let start_user = UserAccount {
        user: id(8),
        amount_deposited: 1_000,
        reward_earned: 1_000,
        shares_minted: 1_000,
        bump: 255,
    };
    let start_vault = Vault { locked: false, amount_deposited: 1_000 };
    let mut user = start_user;
    let mut vault = start_vault;
    let r = withdraw_sol(&config, &mut vault, &mut user, 499, 500);
    assert_eq!(r, Err(ErrorCode::VaultInsufficientFunds));
    assert_eq!(user, start_user);
    assert_eq!(vault, start_vault);
}

#[test]
fn pool_total_tracks_sum_over_users() {
    let (config, mut vault) = fresh_vault(3);
    let (mut alice, _) = init_user(id(10), 255);
    let (mut bob, _) = init_user(id(11), 255);
    deposit_sol(&config, &mut vault, &mut alice, 10_000, 10_000).unwrap();
    deposit_sol(&config, &mut vault, &mut bob, 4_000, 4_000).unwrap();
    deposit_sol(&config, &mut vault, &mut alice, 2_500, 2_500).unwrap();
    withdraw_sol(&config, &mut vault, &mut bob, 16_500, 3_000).unwrap();
    assert_eq!(
        vault.amount_deposited,
        alice.amount_deposited + bob.amount_deposited
    );
}

#[test]
fn shares_stay_proportional_under_deposits_only() {
    let (config, mut vault) = fresh_vault(5);
    let (mut user, _) = init_user(id(12), 255);
    assert_eq!(user.shares_minted, user.amount_deposited * 5);
    for amount in [1, 99, 12_345] {
        deposit_sol(&config, &mut vault, &mut user, amount, amount).unwrap();
        assert_eq!(user.shares_minted, user.amount_deposited * 5);
        assert_eq!(user.reward_earned, user.shares_minted);
    }
}

#[test]
fn calculate_reward_multiplies_all_three_factors() {
    assert_eq!(calculate_reward(1_000, 20, 3), Ok(60_000));
    assert_eq!(calculate_reward(0, 1_000_000, 1_000_000), Ok(0));
    assert_eq!(calculate_reward(u64::MAX, 2, 1), Err(ErrorCode::Overflow));
    assert_eq!(calculate_reward(u64::MAX, 1, 2), Err(ErrorCode::Overflow));
}
