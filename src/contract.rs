use vstd::prelude::*;

use crate::accounts::AccountsRps;
use crate::error::RewardError;
use crate::pool::RewardPool;
use crate::rps_manager::{ChannelRps, RpsManager};

verus! {

/// The message that marks a reward-token transfer as a deposit of profits.
pub const DEPOSIT_PROFITS_MSG: &'static str = "deposit_profits";

/// Bytes of storage that one registered account takes, with some room to
/// spare: its entry in the share ledger and its reward entry.
pub const STORAGE_BYTES_PER_USER: u128 = 300;

/// What registering one account costs at `storage_byte_cost` per byte; both
/// the least and the most that a storage deposit keeps. `None` where the
/// product leaves `u128`.
pub fn storage_balance_bounds(storage_byte_cost: u128) -> (r: Option<u128>)
    ensures
        STORAGE_BYTES_PER_USER * storage_byte_cost <= u128::MAX ==> r == Some(
            (STORAGE_BYTES_PER_USER * storage_byte_cost) as u128,
        ),
        STORAGE_BYTES_PER_USER * storage_byte_cost > u128::MAX ==> r is None,
{
    STORAGE_BYTES_PER_USER.checked_mul(storage_byte_cost)
}

/// The entry of `account` in `accounts`, or a fresh one baselined at the given
/// counters where the account has none yet.
pub open spec fn entry_of(
    accounts: Map<Seq<char>, RpsManager>,
    account: Seq<char>,
    contract_rps_token: u128,
    contract_rps_near: u128,
) -> RpsManager {
    if accounts.contains_key(account) {
        accounts[account]
    } else {
        RpsManager::fresh(contract_rps_token, contract_rps_near)
    }
}

/// An entry with `amount` put back into its claimable reward-token balance.
pub open spec fn restored(e: RpsManager, amount: u128) -> RpsManager {
    RpsManager {
        token: ChannelRps { rewards_balance: (e.token.rewards_balance + amount) as u128, ..e.token },
        near: e.near,
    }
}

/// The NFT events that a share transfer calls for.
#[derive(Clone, Copy, Debug, PartialEq, Eq, Structural)]
pub struct NftEvents {
    /// The sender is left without shares: its NFT is burnt.
    pub sender_burn: bool,
    /// The receiver held no shares before: an NFT is minted for it.
    pub receiver_mint: bool,
}

/// What a storage deposit leads to.
#[derive(Clone, Copy, Debug, PartialEq, Eq, Structural)]
pub struct StorageDeposit {
    /// The account was not registered and now is.
    pub registered: bool,
    /// What goes back to the payer.
    pub refund: u128,
}

/// The reward book of the share contract: one accumulator per channel and a
/// reward entry per account. Share balances and the share supply belong to the
/// share ledger; each operation is handed the values it needs from it.
pub struct Contract {
    /// The token contract whose transfers are reward deposits.
    pub reward_token: String,
    /// Accumulator of the reward-token channel.
    pub token_pool: RewardPool,
    /// Accumulator of the native-currency channel.
    pub near_pool: RewardPool,
    /// Reward entries of the accounts settled so far.
    pub accounts_rps: AccountsRps,
}

impl Contract {
    /// Each account has at most one reward entry.
    pub open spec fn wf(&self) -> bool {
        self.accounts_rps.wf()
    }

    /// The account's entry as stored, or the fresh one it would get now.
    pub open spec fn entry(&self, account: Seq<char>) -> RpsManager {
        entry_of(self.accounts_rps@, account, self.token_pool.contract_rps, self.near_pool.contract_rps)
    }

    /// The account's entry settled at the current counters with `shares`
    /// shares held.
    pub open spec fn reconciled(&self, account: Seq<char>, shares: u128) -> Result<RpsManager, RewardError> {
        self.entry(account).updated(self.token_pool.contract_rps, self.near_pool.contract_rps, shares)
    }

    /// The entries after the reward side of a share transfer: the sender
    /// reconciled with `sender_shares`, then the receiver with
    /// `receiver_shares`, both counted before the shares move.
    pub open spec fn after_share_transfer(
        &self,
        sender: Seq<char>,
        sender_shares: u128,
        receiver: Seq<char>,
        receiver_shares: u128,
    ) -> Result<Map<Seq<char>, RpsManager>, RewardError> {
        let tr = self.token_pool.contract_rps;
        let nr = self.near_pool.contract_rps;
        match self.reconciled(sender, sender_shares) {
            Err(e) => Err(e),
            Ok(ms) => {
                let mid = self.accounts_rps@.insert(sender, ms);
                match entry_of(mid, receiver, tr, nr).updated(tr, nr, receiver_shares) {
                    Err(e) => Err(e),
                    Ok(mr) => Ok(mid.insert(receiver, mr)),
                }
            },
        }
    }

    /// Same reward token and same accumulators.
    pub open spec fn same_pools(&self, other: &Contract) -> bool {
        &&& self.reward_token@ == other.reward_token@
        &&& self.token_pool == other.token_pool
        &&& self.near_pool == other.near_pool
    }

    /// A book with nothing deposited yet, in which `owner_id`, who starts with
    /// the whole share supply, is already settled.
    pub fn new(owner_id: &String, reward_token: String) -> (r: Self)
        ensures
            r.wf(),
            r.reward_token@ == reward_token@,
            r.token_pool == RewardPool::new_spec(),
            r.near_pool == RewardPool::new_spec(),
            r.accounts_rps@ == Map::<Seq<char>, RpsManager>::empty().insert(owner_id@, RpsManager::fresh(0, 0)),
    {
        let mut accounts_rps = AccountsRps::new();
        accounts_rps.insert(owner_id, RpsManager::new(0, 0));
        Contract { reward_token, token_pool: RewardPool::new(), near_pool: RewardPool::new(), accounts_rps }
    }

    /// Reconciliation: credits the account with what `user_balance` shares
    /// earned since it was last settled and stores the settled entry. An account
    /// seen for the first time gets an entry baselined at the current counters.
    pub fn update_user_rps(&mut self, account_id: &String, user_balance: u128) -> (r: Result<(), RewardError>)
        requires
            old(self).wf(),
        ensures
            final(self).wf(),
            final(self).same_pools(old(self)),
            match old(self).reconciled(account_id@, user_balance) {
                Ok(m) => r is Ok && final(self).accounts_rps@ == old(self).accounts_rps@.insert(account_id@, m),
                Err(e) => r == Err::<(), RewardError>(e) && final(self).accounts_rps@ == old(self).accounts_rps@,
            },
    {
        let mut user_rps = self.current_entry(account_id);
        match user_rps.update_rps(self.token_pool.contract_rps, self.near_pool.contract_rps, user_balance) {
            Ok(()) => {},
            Err(e) => return Err(e),
        }
        self.accounts_rps.insert(account_id, user_rps);
        Ok(())
    }

    /// The stored entry of the account, or a fresh one.
    fn current_entry(&self, account_id: &String) -> (r: RpsManager)
        requires
            self.wf(),
        ensures
            r == self.entry(account_id@),
    {
        match self.accounts_rps.get(account_id) {
            Some(m) => m,
            None => RpsManager::new(self.token_pool.contract_rps, self.near_pool.contract_rps),
        }
    }

    /// What the account could claim now in each channel, as (reward token,
    /// native currency), given that it holds `user_balance` shares. Changes
    /// nothing.
    pub fn view_claimable_rewards(&self, account_id: &String, user_balance: u128) -> (r: Result<(u128, u128), RewardError>)
        requires
            self.wf(),
        ensures
            match self.reconciled(account_id@, user_balance) {
                Ok(m) => r == Ok::<(u128, u128), RewardError>((m.token.rewards_balance, m.near.rewards_balance)),
                Err(e) => r == Err::<(u128, u128), RewardError>(e),
            },
    {
        let mut user_rps = self.current_entry(account_id);
        match user_rps.update_rps(self.token_pool.contract_rps, self.near_pool.contract_rps, user_balance) {
            Ok(()) => Ok((user_rps.token.rewards_balance, user_rps.near.rewards_balance)),
            Err(e) => Err(e),
        }
    }

    /// Reconciles the account, then empties both claimable balances and
    /// returns what they held, as (reward token, native currency).
    pub fn withdraw_rewards(&mut self, account_id: &String, user_balance: u128) -> (r: Result<(u128, u128), RewardError>)
        requires
            old(self).wf(),
        ensures
            final(self).wf(),
            final(self).same_pools(old(self)),
            match old(self).reconciled(account_id@, user_balance) {
                Ok(m) => r == Ok::<(u128, u128), RewardError>((m.token.rewards_balance, m.near.rewards_balance))
                    && final(self).accounts_rps@ == old(self).accounts_rps@.insert(account_id@, m.emptied()),
                Err(e) => r == Err::<(u128, u128), RewardError>(e) && final(self).accounts_rps@ == old(self).accounts_rps@,
            },
    {
        let mut user_rps = self.current_entry(account_id);
        match user_rps.update_rps(self.token_pool.contract_rps, self.near_pool.contract_rps, user_balance) {
            Ok(()) => {},
            Err(e) => return Err(e),
        }
        let reward_count = user_rps.withdraw_rewards();
        self.accounts_rps.insert(account_id, user_rps);
        Ok(reward_count)
    }

    /// Puts `amount` back into the account's claimable reward-token balance,
    /// after a transfer out of it failed.
    pub fn rollback_withdraw_reward(&mut self, account_id: &String, amount: u128) -> (r: Result<(), RewardError>)
        requires
            old(self).wf(),
        ensures
            final(self).wf(),
            final(self).same_pools(old(self)),
            if old(self).entry(account_id@).token.rewards_balance + amount > u128::MAX {
                r == Err::<(), RewardError>(RewardError::Overflow) && final(self).accounts_rps@ == old(self).accounts_rps@
            } else {
                r is Ok && final(self).accounts_rps@ == old(self).accounts_rps@.insert(
                    account_id@,
                    restored(old(self).entry(account_id@), amount),
                )
            },
    {
        let mut user_rps = self.current_entry(account_id);
        user_rps.token.rewards_balance = match user_rps.token.rewards_balance.checked_add(amount) {
            Some(b) => b,
            None => return Err(RewardError::Overflow),
        };
        self.accounts_rps.insert(account_id, user_rps);
        Ok(())
    }

    /// A deposit of the native currency: `attached_deposit` is added to the
    /// channel's lifetime sum and the counter is recomputed from it with
    /// `total_supply` shares in existence.
    pub fn near_deposit_rewards(&mut self, attached_deposit: u128, total_supply: u128) -> (r: Result<(), RewardError>)
        requires
            old(self).wf(),
        ensures
            final(self).wf(),
            final(self).reward_token@ == old(self).reward_token@,
            final(self).token_pool == old(self).token_pool,
            final(self).accounts_rps@ == old(self).accounts_rps@,
            match old(self).near_pool.deposited(attached_deposit, total_supply) {
                Ok(p) => r is Ok && final(self).near_pool == p,
                Err(e) => r == Err::<(), RewardError>(e) && final(self).near_pool == old(self).near_pool,
            },
    {
        self.near_pool.deposit(attached_deposit, total_supply)
    }

    /// A transfer of `amount` reward tokens into the contract, announced by
    /// the token contract `predecessor_id`. Only the configured reward token
    /// with the deposit message is taken; the whole amount is used, so the
    /// unused part returned is zero.
    pub fn ft_on_transfer(&mut self, predecessor_id: &String, amount: u128, msg: &String, total_supply: u128) -> (r: Result<u128, RewardError>)
        requires
            old(self).wf(),
        ensures
            final(self).wf(),
            final(self).reward_token@ == old(self).reward_token@,
            final(self).near_pool == old(self).near_pool,
            final(self).accounts_rps@ == old(self).accounts_rps@,
            if predecessor_id@ != old(self).reward_token@ {
                r == Err::<u128, RewardError>(RewardError::InvalidRewardToken) && final(self).token_pool == old(self).token_pool
            } else if msg@ != DEPOSIT_PROFITS_MSG@ {
                r == Err::<u128, RewardError>(RewardError::InvalidMessage) && final(self).token_pool == old(self).token_pool
            } else {
                match old(self).token_pool.deposited(amount, total_supply) {
                    Ok(p) => r == Ok::<u128, RewardError>(0) && final(self).token_pool == p,
                    Err(e) => r == Err::<u128, RewardError>(e) && final(self).token_pool == old(self).token_pool,
                }
            },
    {
        if !(*predecessor_id == self.reward_token) {
            return Err(RewardError::InvalidRewardToken);
        }
        let expected = DEPOSIT_PROFITS_MSG.to_owned();
        if !(*msg == expected) {
            return Err(RewardError::InvalidMessage);
        }
        match self.token_pool.deposit(amount, total_supply) {
            Ok(()) => Ok(0),
            Err(e) => Err(e),
        }
    }

    /// A claim by `account_id`, who holds `user_balance` shares and attached
    /// `attached_deposit`. Exactly one unit of the native currency must be
    /// attached. The account is reconciled and both claimable balances are
    /// emptied; the result is what must be paid out, as (reward token, native
    /// currency). A nonzero reward-token amount is sent by a transfer whose
    /// outcome comes back through `resolve_reward_transfer`; when both amounts
    /// are zero nothing is to be done.
    pub fn claim_rewards(&mut self, account_id: &String, attached_deposit: u128, user_balance: u128) -> (r: Result<(u128, u128), RewardError>)
        requires
            old(self).wf(),
        ensures
            final(self).wf(),
            final(self).same_pools(old(self)),
            attached_deposit != 1 ==> r == Err::<(u128, u128), RewardError>(RewardError::RequiresOneYocto)
                && final(self).accounts_rps@ == old(self).accounts_rps@,
            attached_deposit == 1 ==> match old(self).reconciled(account_id@, user_balance) {
                Ok(m) => r == Ok::<(u128, u128), RewardError>((m.token.rewards_balance, m.near.rewards_balance))
                    && final(self).accounts_rps@ == old(self).accounts_rps@.insert(account_id@, m.emptied()),
                Err(e) => r == Err::<(u128, u128), RewardError>(e) && final(self).accounts_rps@ == old(self).accounts_rps@,
            },
    {
        if attached_deposit != 1 {
            return Err(RewardError::RequiresOneYocto);
        }
        self.withdraw_rewards(account_id, user_balance)
    }

    /// The outcome of the reward-token transfer of `amount` to `receiver_id`
    /// that a claim started. A success needs nothing more; after a failure the
    /// amount is credited back, so that it can be claimed again.
    pub fn resolve_reward_transfer(&mut self, receiver_id: &String, amount: u128, transfer_succeeded: bool) -> (r: Result<(), RewardError>)
        requires
            old(self).wf(),
        ensures
            final(self).wf(),
            final(self).same_pools(old(self)),
            transfer_succeeded ==> r is Ok && final(self).accounts_rps@ == old(self).accounts_rps@,
            !transfer_succeeded ==> if old(self).entry(receiver_id@).token.rewards_balance + amount > u128::MAX {
                r == Err::<(), RewardError>(RewardError::Overflow) && final(self).accounts_rps@ == old(self).accounts_rps@
            } else {
                r is Ok && final(self).accounts_rps@ == old(self).accounts_rps@.insert(
                    receiver_id@,
                    restored(old(self).entry(receiver_id@), amount),
                )
            },
    {
        if transfer_succeeded {
            Ok(())
        } else {
            self.rollback_withdraw_reward(receiver_id, amount)
        }
    }

    /// The reward side of a share transfer of `amount` shares, to be run before
    /// the share ledger moves them: the sender is reconciled with its
    /// `sender_balance`, then the receiver with its `receiver_balance`, both
    /// balances as they stand before the transfer. Says which NFT events follow
    /// the transfer. On an error nothing changes.
    pub fn on_share_transfer(
        &mut self,
        sender_id: &String,
        sender_balance: u128,
        receiver_id: &String,
        receiver_balance: u128,
        amount: u128,
    ) -> (r: Result<NftEvents, RewardError>)
        requires
            old(self).wf(),
        ensures
            final(self).wf(),
            final(self).same_pools(old(self)),
            match old(self).after_share_transfer(sender_id@, sender_balance, receiver_id@, receiver_balance) {
                Ok(m) => r == Ok::<NftEvents, RewardError>(
                    NftEvents { sender_burn: sender_balance == amount, receiver_mint: receiver_balance == 0 },
                ) && final(self).accounts_rps@ == m,
                Err(e) => r == Err::<NftEvents, RewardError>(e) && final(self).accounts_rps@ == old(self).accounts_rps@,
            },
    {
        let tr = self.token_pool.contract_rps;
        let nr = self.near_pool.contract_rps;
        let mut sender_rps = self.current_entry(sender_id);
        match sender_rps.update_rps(tr, nr, sender_balance) {
            Ok(()) => {},
            Err(e) => return Err(e),
        }
        let mut receiver_rps = if *receiver_id == *sender_id {
            sender_rps
        } else {
            self.current_entry(receiver_id)
        };
        match receiver_rps.update_rps(tr, nr, receiver_balance) {
            Ok(()) => {},
            Err(e) => return Err(e),
        }
        self.accounts_rps.insert(sender_id, sender_rps);
        self.accounts_rps.insert(receiver_id, receiver_rps);
        Ok(NftEvents { sender_burn: sender_balance == amount, receiver_mint: receiver_balance == 0 })
    }

    /// Whether the account is registered, that is, has a reward entry.
    pub fn is_registered(&self, account_id: &String) -> (r: bool)
        requires
            self.wf(),
        ensures
            r == self.accounts_rps@.contains_key(account_id@),
    {
        self.accounts_rps.contains_key(account_id)
    }

    /// Registration of `account_id`, paid with `amount` where registration
    /// costs `min_balance`. A new account gets a fresh reward entry and the
    /// rest back; a registered one gets everything back.
    pub fn storage_deposit(&mut self, account_id: &String, amount: u128, min_balance: u128) -> (r: Result<StorageDeposit, RewardError>)
        requires
            old(self).wf(),
        ensures
            final(self).wf(),
            final(self).same_pools(old(self)),
            amount < min_balance ==> r == Err::<StorageDeposit, RewardError>(RewardError::InsufficientStorageDeposit)
                && final(self).accounts_rps@ == old(self).accounts_rps@,
            amount >= min_balance && old(self).accounts_rps@.contains_key(account_id@) ==> r
                == Ok::<StorageDeposit, RewardError>(StorageDeposit { registered: false, refund: amount })
                && final(self).accounts_rps@ == old(self).accounts_rps@,
            amount >= min_balance && !old(self).accounts_rps@.contains_key(account_id@) ==> r
                == Ok::<StorageDeposit, RewardError>(StorageDeposit { registered: true, refund: (amount - min_balance) as u128 })
                && final(self).accounts_rps@ == old(self).accounts_rps@.insert(
                    account_id@,
                    RpsManager::fresh(old(self).token_pool.contract_rps, old(self).near_pool.contract_rps),
                ),
    {
        if amount < min_balance {
            return Err(RewardError::InsufficientStorageDeposit);
        }
        if self.accounts_rps.contains_key(account_id) {
            Ok(StorageDeposit { registered: false, refund: amount })
        } else {
            let fresh = RpsManager::new(self.token_pool.contract_rps, self.near_pool.contract_rps);
            self.accounts_rps.insert(account_id, fresh);
            Ok(StorageDeposit { registered: true, refund: amount - min_balance })
        }
    }

    /// A request to withdraw `amount` of `account_id`'s storage deposit.
    /// Nothing is ever available beyond the registration cost, so only a
    /// registered account asking for nothing (or zero) is answered.
    pub fn storage_withdraw(&self, account_id: &String, amount: Option<u128>) -> (r: Result<(), RewardError>)
        requires
            self.wf(),
        ensures
            !self.accounts_rps@.contains_key(account_id@) ==> r == Err::<(), RewardError>(RewardError::NotRegistered),
            self.accounts_rps@.contains_key(account_id@) ==> r == (match amount {
                Some(a) if a > 0 => Err::<(), RewardError>(RewardError::StorageWithdrawTooLarge),
                _ => Ok::<(), RewardError>(()),
            }),
    {
        if !self.accounts_rps.contains_key(account_id) {
            return Err(RewardError::NotRegistered);
        }
        match amount {
            Some(a) if a > 0 => Err(RewardError::StorageWithdrawTooLarge),
            _ => Ok(()),
        }
    }

    /// Unregistration of `account_id`, which holds `share_balance` shares.
    /// Refused when forced, when rewards are left to claim in either channel,
    /// or when shares are held. Returns whether the account was registered.
    pub fn storage_unregister(&mut self, account_id: &String, force: bool, share_balance: u128) -> (r: Result<bool, RewardError>)
        requires
            old(self).wf(),
        ensures
            final(self).wf(),
            final(self).same_pools(old(self)),
            ({
                let accts = old(self).accounts_rps@;
                let e = accts[account_id@];
                if force {
                    r == Err::<bool, RewardError>(RewardError::ForceUnsupported) && final(self).accounts_rps@ == accts
                } else if !accts.contains_key(account_id@) {
                    r == Ok::<bool, RewardError>(false) && final(self).accounts_rps@ == accts
                } else if e.token.rewards_balance != 0 || e.near.rewards_balance != 0 {
                    r == Err::<bool, RewardError>(RewardError::RewardsPending) && final(self).accounts_rps@ == accts
                } else if share_balance != 0 {
                    r == Err::<bool, RewardError>(RewardError::SharesHeld) && final(self).accounts_rps@ == accts
                } else {
                    r == Ok::<bool, RewardError>(true) && final(self).accounts_rps@ == accts.remove(account_id@)
                }
            }),
    {
        if force {
            return Err(RewardError::ForceUnsupported);
        }
        let rewards = match self.accounts_rps.get(account_id) {
            Some(m) => m,
            None => return Ok(false),
        };
        if rewards.token.rewards_balance != 0 || rewards.near.rewards_balance != 0 {
            return Err(RewardError::RewardsPending);
        }
        if share_balance != 0 {
            return Err(RewardError::SharesHeld);
        }
        self.accounts_rps.remove(account_id);
        Ok(true)
    }
}

} // verus!
