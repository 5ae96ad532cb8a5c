use share_nft_token::contract::{storage_balance_bounds, Contract, NftEvents, StorageDeposit};
use share_nft_token::{ChannelRps, RewardError, RewardPool, RpsManager};

const REWARD_TOKEN: &str = "rewards.testnet";
const OWNER: &str = "owner.testnet";
const USER: &str = "user.testnet";
const USER2: &str = "user2.testnet";
const TOKEN_SUPPLY: u128 = 100_000;

fn id(s: &str) -> String {
    s.to_string()
}

fn book() -> Contract {
    Contract::new(&id(OWNER), id(REWARD_TOKEN))
}

/// Deposits `amount` reward tokens with the deposit message.
fn deposit_tokens(c: &mut Contract, amount: u128, supply: u128) {
    let r = c.ft_on_transfer(&id(REWARD_TOKEN), amount, &id("deposit_profits"), supply);
    assert_eq!(r, Ok(0));
}

/// Moves `amount` shares in a ledger of (account, shares) pairs after the
/// reward side of the transfer.
fn transfer(c: &mut Contract, ledger: &mut Vec<(String, u128)>, from: &str, to: &str, amount: u128) -> NftEvents {
    let fb = balance(ledger, from);
    let tb = balance(ledger, to);
    let ev = c.on_share_transfer(&id(from), fb, &id(to), tb, amount).unwrap();
    set_balance(ledger, from, fb - amount);
    set_balance(ledger, to, tb + amount);
    ev
}

fn balance(ledger: &Vec<(String, u128)>, who: &str) -> u128 {
    ledger.iter().find(|(a, _)| a == who).map(|(_, b)| *b).unwrap_or(0)
}

fn set_balance(ledger: &mut Vec<(String, u128)>, who: &str, v: u128) {
    match ledger.iter_mut().find(|(a, _)| a == who) {
        Some(e) => e.1 = v,
        None => ledger.push((who.to_string(), v)),
    }
}

fn claimable(c: &Contract, ledger: &Vec<(String, u128)>, who: &str) -> (u128, u128) {
    c.view_claimable_rewards(&id(who), balance(ledger, who)).unwrap()
}

#[test]
fn scenario_two_deposits_then_claim_and_failed_transfer() {
    let mut c = book();
    let mut ledger = vec![(id(OWNER), TOKEN_SUPPLY)];
    transfer(&mut c, &mut ledger, OWNER, USER, 1_000);
    transfer(&mut c, &mut ledger, OWNER, USER2, 1_000);
    assert_eq!(balance(&ledger, OWNER), 98_000);

    deposit_tokens(&mut c, 1_000_000, TOKEN_SUPPLY);
    assert_eq!(claimable(&c, &ledger, USER).0, 10_000);
    assert_eq!(claimable(&c, &ledger, USER2).0, 10_000);
    assert_eq!(claimable(&c, &ledger, OWNER).0, 980_000);

    deposit_tokens(&mut c, 1_000_000, TOKEN_SUPPLY);
    assert_eq!(claimable(&c, &ledger, USER).0, 20_000);
    assert_eq!(claimable(&c, &ledger, USER2).0, 20_000);
    assert_eq!(claimable(&c, &ledger, OWNER).0, 1_960_000);

    let paid = c.claim_rewards(&id(USER), 1, balance(&ledger, USER)).unwrap();
    assert_eq!(paid, (20_000, 0));
    assert_eq!(claimable(&c, &ledger, USER), (0, 0));

    c.resolve_reward_transfer(&id(USER), paid.0, false).unwrap();
    assert_eq!(claimable(&c, &ledger, USER).0, 20_000);
}

#[test]
fn test_normal_flow() {
    let share_token_supply: u128 = 10_000;
    let user_ft_balance: u128 = 1_000_000;
    let user_share_balance: u128 = 1_000;
    let owner_share_balance = share_token_supply - 2 * user_share_balance;
    let near_transfer_size: u128 = 1_000_000;

    let mut c = book();
    let mut ledger = vec![(id(OWNER), share_token_supply)];
    for who in [OWNER, USER, USER2] {
        let reg = c.storage_deposit(&id(who), 10, 10).unwrap();
        assert_eq!(reg.registered, who != OWNER);
    }
    transfer(&mut c, &mut ledger, OWNER, USER, user_share_balance);
    transfer(&mut c, &mut ledger, OWNER, USER2, user_share_balance);

    deposit_tokens(&mut c, user_ft_balance, share_token_supply);
    c.near_deposit_rewards(near_transfer_size, share_token_supply).unwrap();

    assert_eq!(claimable(&c, &ledger, USER).0, (user_ft_balance * user_share_balance) / share_token_supply);
    assert_eq!(claimable(&c, &ledger, USER2).0, (user_ft_balance * user_share_balance) / share_token_supply);
    assert_eq!(claimable(&c, &ledger, OWNER).0, (user_ft_balance * owner_share_balance) / share_token_supply);
    assert_eq!(claimable(&c, &ledger, USER).1, (near_transfer_size * user_share_balance) / share_token_supply);
    assert_eq!(claimable(&c, &ledger, USER2).1, (near_transfer_size * user_share_balance) / share_token_supply);
    assert_eq!(claimable(&c, &ledger, OWNER).1, (near_transfer_size * owner_share_balance) / share_token_supply);

    deposit_tokens(&mut c, user_ft_balance, share_token_supply);
    c.near_deposit_rewards(near_transfer_size, share_token_supply).unwrap();

    let owner_profits = claimable(&c, &ledger, OWNER);
    let user1_profits = claimable(&c, &ledger, USER);
    let user2_profits = claimable(&c, &ledger, USER2);
    assert_eq!(user1_profits.0, (user_ft_balance * 2 * user_share_balance) / share_token_supply);
    assert_eq!(user2_profits.0, (user_ft_balance * 2 * user_share_balance) / share_token_supply);
    assert_eq!(owner_profits.0, (user_ft_balance * 2 * owner_share_balance) / share_token_supply);
    assert_eq!(user1_profits.1, (near_transfer_size * 2 * user_share_balance) / share_token_supply);
    assert_eq!(user2_profits.1, (near_transfer_size * 2 * user_share_balance) / share_token_supply);
    assert_eq!(owner_profits.1, (near_transfer_size * 2 * owner_share_balance) / share_token_supply);

    assert_eq!(c.claim_rewards(&id(OWNER), 1, balance(&ledger, OWNER)), Ok(owner_profits));
    assert_eq!(c.claim_rewards(&id(USER), 1, balance(&ledger, USER)), Ok(user1_profits));
    assert_eq!(c.claim_rewards(&id(USER2), 1, balance(&ledger, USER2)), Ok(user2_profits));
    for who in [OWNER, USER, USER2] {
        assert_eq!(claimable(&c, &ledger, who), (0, 0));
    }
}

#[test]
fn test_near_deposit_rewards_below_supply_is_deferred() {
    let mut c = book();
    c.near_deposit_rewards(TOKEN_SUPPLY - 1, TOKEN_SUPPLY).unwrap();
    assert_eq!(c.view_claimable_rewards(&id(OWNER), TOKEN_SUPPLY), Ok((0, 0)));
}

#[test]
fn test_near_deposit_rewards_of_supply_is_distributed() {
    let mut c = book();
    c.near_deposit_rewards(TOKEN_SUPPLY, TOKEN_SUPPLY).unwrap();
    assert_eq!(c.near_pool, RewardPool { all_time_count: TOKEN_SUPPLY, contract_rps: 1 });
    assert_eq!(c.view_claimable_rewards(&id(OWNER), TOKEN_SUPPLY), Ok((0, TOKEN_SUPPLY)));
}

#[test]
fn test_ft_on_transfer_rejects_other_token() {
    let mut c = book();
    let r = c.ft_on_transfer(&id(OWNER), 10, &id("deposit_profits"), TOKEN_SUPPLY);
    assert_eq!(r, Err(RewardError::InvalidRewardToken));
    assert_eq!(c.token_pool, RewardPool { all_time_count: 0, contract_rps: 0 });
}

#[test]
fn test_ft_on_transfer_rejects_unknown_message() {
    let mut c = book();
    let r = c.ft_on_transfer(&id(REWARD_TOKEN), 10, &id("deposit"), TOKEN_SUPPLY);
    assert_eq!(r, Err(RewardError::InvalidMessage));
    assert_eq!(c.token_pool, RewardPool { all_time_count: 0, contract_rps: 0 });
}

#[test]
fn test_ft_on_transfer_below_supply_is_deferred() {
    let mut c = book();
    deposit_tokens(&mut c, TOKEN_SUPPLY - 1, TOKEN_SUPPLY);
    assert_eq!(c.view_claimable_rewards(&id(OWNER), TOKEN_SUPPLY), Ok((0, 0)));
}

#[test]
fn test_ft_on_transfer_of_supply_is_distributed() {
    let mut c = book();
    deposit_tokens(&mut c, TOKEN_SUPPLY, TOKEN_SUPPLY);
    assert_eq!(c.view_claimable_rewards(&id(OWNER), TOKEN_SUPPLY), Ok((TOKEN_SUPPLY, 0)));
}

#[test]
fn deposit_with_no_shares_is_refused() {
    let mut c = book();
    assert_eq!(c.near_deposit_rewards(5, 0), Err(RewardError::ZeroSupply));
    assert_eq!(c.ft_on_transfer(&id(REWARD_TOKEN), 5, &id("deposit_profits"), 0), Err(RewardError::ZeroSupply));
}

#[test]
fn deposit_past_u128_is_refused() {
    let mut c = book();
    deposit_tokens(&mut c, u128::MAX, 1);
    assert_eq!(c.ft_on_transfer(&id(REWARD_TOKEN), 1, &id("deposit_profits"), 1), Err(RewardError::Overflow));
    assert_eq!(c.token_pool.all_time_count, u128::MAX);
}

#[test]
fn remainders_resurface_on_a_later_deposit() {
    let mut p = RewardPool::new();
    p.deposit(2, 3).unwrap();
    assert_eq!(p.contract_rps, 0);
    p.deposit(2, 3).unwrap();
    assert_eq!(p, RewardPool { all_time_count: 4, contract_rps: 1 });
}

fn with_balances(c: &mut Contract, who: &str, token: u128, near: u128) {
    let mut m = RpsManager::new(c.token_pool.contract_rps, c.near_pool.contract_rps);
    m.token.rewards_balance = token;
    m.near.rewards_balance = near;
    c.accounts_rps.insert(&id(who), m);
}

#[test]
fn test_claim_rewards_requires_one_yocto() {
    let mut c = book();
    with_balances(&mut c, USER, 0, 0);
    assert_eq!(c.claim_rewards(&id(USER), 0, 100), Err(RewardError::RequiresOneYocto));
    with_balances(&mut c, USER, 10, 10);
    assert_eq!(c.claim_rewards(&id(USER), 2, 100), Err(RewardError::RequiresOneYocto));
    assert_eq!(c.view_claimable_rewards(&id(USER), 100), Ok((10, 10)));
}

#[test]
fn test_claim_rewards_both_channels() {
    let mut c = book();
    with_balances(&mut c, USER, 10, 10);
    assert_eq!(c.claim_rewards(&id(USER), 1, 100), Ok((10, 10)));
    assert_eq!(c.accounts_rps.get(&id(USER)).unwrap().token.rewards_balance, 0);
    assert_eq!(c.accounts_rps.get(&id(USER)).unwrap().near.rewards_balance, 0);
}

#[test]
fn test_claim_rewards_near_only() {
    let mut c = book();
    with_balances(&mut c, USER, 0, 10);
    assert_eq!(c.claim_rewards(&id(USER), 1, 100), Ok((0, 10)));
    assert_eq!(c.view_claimable_rewards(&id(USER), 100), Ok((0, 0)));
}

#[test]
fn test_claim_rewards_token_only() {
    let mut c = book();
    with_balances(&mut c, USER, 10, 0);
    assert_eq!(c.claim_rewards(&id(USER), 1, 100), Ok((10, 0)));
    assert_eq!(c.view_claimable_rewards(&id(USER), 100), Ok((0, 0)));
}

#[test]
fn claim_with_nothing_owed_pays_nothing() {
    let mut c = book();
    assert_eq!(c.claim_rewards(&id(USER), 1, 0), Ok((0, 0)));
}

#[test]
fn test_resolve_reward_transfer_success_keeps_zero() {
    let mut c = book();
    with_balances(&mut c, USER, 0, 0);
    c.resolve_reward_transfer(&id(USER), 100, true).unwrap();
    assert_eq!(c.accounts_rps.get(&id(USER)).unwrap().token.rewards_balance, 0);
}

#[test]
fn test_resolve_reward_transfer_failure_restores() {
    let mut c = book();
    with_balances(&mut c, USER, 0, 0);
    c.resolve_reward_transfer(&id(USER), 100, false).unwrap();
    assert_eq!(c.accounts_rps.get(&id(USER)).unwrap().token.rewards_balance, 100);
}

#[test]
fn rollback_past_u128_is_refused() {
    let mut c = book();
    with_balances(&mut c, USER, u128::MAX, 0);
    assert_eq!(c.rollback_withdraw_reward(&id(USER), 1), Err(RewardError::Overflow));
    assert_eq!(c.accounts_rps.get(&id(USER)).unwrap().token.rewards_balance, u128::MAX);
}

#[test]
fn account_ahead_of_pool_is_refused() {
    let mut c = book();
    let mut m = RpsManager::new(5, 0);
    m.token.rewards_balance = 3;
    c.accounts_rps.insert(&id(USER), m);
    assert_eq!(c.update_user_rps(&id(USER), 10), Err(RewardError::AccountAheadOfPool));
    assert_eq!(c.accounts_rps.get(&id(USER)), Some(m));
}

#[test]
fn settlement_overflow_is_refused() {
    let mut c = book();
    deposit_tokens(&mut c, u128::MAX, 1);
    assert_eq!(c.update_user_rps(&id(OWNER), 2), Err(RewardError::Overflow));
    assert_eq!(c.accounts_rps.get(&id(OWNER)), Some(RpsManager::new(0, 0)));
}

#[test]
fn new_account_starts_at_current_counter() {
    let mut c = book();
    deposit_tokens(&mut c, 500_000, TOKEN_SUPPLY);
    c.update_user_rps(&id(USER), 0).unwrap();
    assert_eq!(c.accounts_rps.get(&id(USER)), Some(RpsManager::new(5, 0)));
    assert_eq!(c.view_claimable_rewards(&id(USER), 0), Ok((0, 0)));
}

#[test]
fn transfer_reconciles_with_balances_before_the_move() {
    let mut c = book();
    let mut ledger = vec![(id(OWNER), TOKEN_SUPPLY)];
    deposit_tokens(&mut c, 200_000, TOKEN_SUPPLY);
    let ev = transfer(&mut c, &mut ledger, OWNER, USER, 40_000);
    assert_eq!(ev, NftEvents { sender_burn: false, receiver_mint: true });
    let owner = c.accounts_rps.get(&id(OWNER)).unwrap();
    assert_eq!(owner.token, ChannelRps { account_rps: 2, rewards_received: 200_000, rewards_balance: 200_000 });
    assert_eq!(claimable(&c, &ledger, USER).0, 0);
    let ev = transfer(&mut c, &mut ledger, USER, USER2, 40_000);
    assert_eq!(ev, NftEvents { sender_burn: true, receiver_mint: true });
}

#[test]
fn transfer_neutrality_on_values() {
    let mut c = book();
    let mut ledger = vec![(id(OWNER), TOKEN_SUPPLY)];
    transfer(&mut c, &mut ledger, OWNER, USER, 30_000);
    deposit_tokens(&mut c, 700_000, TOKEN_SUPPLY);
    let before = claimable(&c, &ledger, OWNER).0 + claimable(&c, &ledger, USER).0;
    assert_eq!(before, 700_000);
    transfer(&mut c, &mut ledger, USER, OWNER, 25_000);
    let after = claimable(&c, &ledger, OWNER).0 + claimable(&c, &ledger, USER).0;
    assert_eq!(after, before);
    assert_eq!(claimable(&c, &ledger, USER).0, 210_000);
    deposit_tokens(&mut c, 100_000, TOKEN_SUPPLY);
    assert_eq!(claimable(&c, &ledger, USER).0, 210_000 + 5_000);
}

#[test]
fn reconciliation_is_idempotent_on_values() {
    let mut c = book();
    deposit_tokens(&mut c, 300_000, TOKEN_SUPPLY);
    c.near_deposit_rewards(100_000, TOKEN_SUPPLY).unwrap();
    c.update_user_rps(&id(OWNER), TOKEN_SUPPLY).unwrap();
    let once = c.accounts_rps.get(&id(OWNER)).unwrap();
    c.update_user_rps(&id(OWNER), TOKEN_SUPPLY).unwrap();
    assert_eq!(c.accounts_rps.get(&id(OWNER)).unwrap(), once);
    assert_eq!(once.token.rewards_balance, 300_000);
    assert_eq!(once.near.rewards_balance, 100_000);
}

#[test]
fn proportionality_on_values() {
    let mut c = book();
    let mut ledger = vec![(id(OWNER), 7)];
    transfer(&mut c, &mut ledger, OWNER, USER, 3);
    deposit_tokens(&mut c, 100, 7);
    assert_eq!(claimable(&c, &ledger, USER).0, (100 / 7) * 3);
    assert_eq!(claimable(&c, &ledger, OWNER).0, (100 / 7) * 4);
}

#[test]
fn conservation_on_values() {
    let supply: u128 = 7;
    let mut c = book();
    let mut ledger = vec![(id(OWNER), supply)];
    deposit_tokens(&mut c, 10, supply);
    transfer(&mut c, &mut ledger, OWNER, USER, 2);
    deposit_tokens(&mut c, 6, supply);
    transfer(&mut c, &mut ledger, USER, USER2, 1);
    deposit_tokens(&mut c, 9, supply);
    let total: u128 = [OWNER, USER, USER2].iter().map(|w| claimable(&c, &ledger, w).0).sum();
    let deposited: u128 = 25;
    assert_eq!(total, deposited - deposited % supply);
    assert_eq!(total, 21);
}

#[test]
fn native_balance_accumulates_after_a_claim() {
    let mut c = book();
    c.near_deposit_rewards(TOKEN_SUPPLY, TOKEN_SUPPLY).unwrap();
    assert_eq!(c.claim_rewards(&id(OWNER), 1, TOKEN_SUPPLY), Ok((0, TOKEN_SUPPLY)));
    c.near_deposit_rewards(2 * TOKEN_SUPPLY, TOKEN_SUPPLY).unwrap();
    let e = c.accounts_rps.get(&id(OWNER)).unwrap();
    assert_eq!(e.near.rewards_received, TOKEN_SUPPLY);
    assert_eq!(c.view_claimable_rewards(&id(OWNER), TOKEN_SUPPLY), Ok((0, 2 * TOKEN_SUPPLY)));
}

#[test]
fn rps_manager_update_and_withdraw() {
    let mut m = RpsManager::new(1, 2);
    m.update_rps(4, 5, 10).unwrap();
    assert_eq!(m.token, ChannelRps { account_rps: 4, rewards_received: 30, rewards_balance: 30 });
    assert_eq!(m.near, ChannelRps { account_rps: 5, rewards_received: 30, rewards_balance: 30 });
    assert_eq!(m.withdraw_rewards(), (30, 30));
    assert_eq!(m.token, ChannelRps { account_rps: 4, rewards_received: 30, rewards_balance: 0 });
    assert_eq!(m.update_rps(3, 5, 10), Err(RewardError::AccountAheadOfPool));
    assert_eq!(m.near.rewards_balance, 0);
}

#[test]
fn storage_deposit_registers_once() {
    let mut c = book();
    assert_eq!(c.storage_deposit(&id(USER), 9, 10), Err(RewardError::InsufficientStorageDeposit));
    assert!(!c.is_registered(&id(USER)));
    assert_eq!(c.storage_deposit(&id(USER), 15, 10), Ok(StorageDeposit { registered: true, refund: 5 }));
    assert!(c.is_registered(&id(USER)));
    assert_eq!(c.storage_deposit(&id(USER), 15, 10), Ok(StorageDeposit { registered: false, refund: 15 }));
}

#[test]
fn storage_withdraw_answers() {
    let mut c = book();
    assert_eq!(c.storage_withdraw(&id(USER), None), Err(RewardError::NotRegistered));
    c.storage_deposit(&id(USER), 10, 10).unwrap();
    assert_eq!(c.storage_withdraw(&id(USER), None), Ok(()));
    assert_eq!(c.storage_withdraw(&id(USER), Some(0)), Ok(()));
    assert_eq!(c.storage_withdraw(&id(USER), Some(1)), Err(RewardError::StorageWithdrawTooLarge));
}

#[test]
fn storage_unregister_conditions() {
    let mut c = book();
    assert_eq!(c.storage_unregister(&id(USER), true, 0), Err(RewardError::ForceUnsupported));
    assert_eq!(c.storage_unregister(&id(USER), false, 0), Ok(false));
    with_balances(&mut c, USER, 0, 4);
    assert_eq!(c.storage_unregister(&id(USER), false, 0), Err(RewardError::RewardsPending));
    with_balances(&mut c, USER, 0, 0);
    assert_eq!(c.storage_unregister(&id(USER), false, 3), Err(RewardError::SharesHeld));
    assert_eq!(c.storage_unregister(&id(USER), false, 0), Ok(true));
    assert!(!c.is_registered(&id(USER)));
}

#[test]
fn storage_bounds() {
    assert_eq!(storage_balance_bounds(10_000_000_000_000_000_000), Some(3_000_000_000_000_000_000_000));
    assert_eq!(storage_balance_bounds(u128::MAX / 2), None);
}
