use vstd::prelude::*;

use crate::error::RewardError;

verus! {

/// One account's reward bookkeeping in one reward channel.
#[derive(Clone, Copy, Debug, PartialEq, Eq, Structural)]
pub struct ChannelRps {
    /// The channel's reward-per-share counter when the account was last settled.
    pub account_rps: u128,
    /// Lifetime total credited to the account; never decreases.
    pub rewards_received: u128,
    /// What the account can claim now.
    pub rewards_balance: u128,
}

impl ChannelRps {
    /// Rewards earned by `shares` shares while the counter moved from
    /// `account_rps` up to `contract_rps`.
    pub open spec fn accrual(self, contract_rps: int, shares: int) -> int {
        shares * (contract_rps - self.account_rps)
    }

    /// The entry after settling it at counter `contract_rps` with `shares`
    /// shares held, or why that cannot be done.
    pub open spec fn settled(self, contract_rps: u128, shares: u128) -> Result<ChannelRps, RewardError> {
        let gain = self.accrual(contract_rps as int, shares as int);
        if contract_rps < self.account_rps {
            Err(RewardError::AccountAheadOfPool)
        } else if self.rewards_received + gain > u128::MAX || self.rewards_balance + gain > u128::MAX {
            Err(RewardError::Overflow)
        } else {
            Ok(ChannelRps {
                account_rps: contract_rps,
                rewards_received: (self.rewards_received + gain) as u128,
                rewards_balance: (self.rewards_balance + gain) as u128,
            })
        }
    }

    /// A fresh entry at counter `contract_rps`.
    pub open spec fn new_spec(contract_rps: u128) -> ChannelRps {
        ChannelRps { account_rps: contract_rps, rewards_received: 0, rewards_balance: 0 }
    }

    /// A fresh entry, baselined at the channel's current counter so that it
    /// earns nothing from earlier deposits.
    pub fn new(contract_rps: u128) -> (r: Self)
        ensures
            r == Self::new_spec(contract_rps),
    {
        ChannelRps { account_rps: contract_rps, rewards_received: 0, rewards_balance: 0 }
    }

    /// Computes the settled entry without changing this one.
    pub fn settle(&self, contract_rps: u128, shares: u128) -> (r: Result<ChannelRps, RewardError>)
        ensures
            r == self.settled(contract_rps, shares),
    {
        if contract_rps < self.account_rps {
            return Err(RewardError::AccountAheadOfPool);
        }
        let diff = contract_rps - self.account_rps;
        let gain = match shares.checked_mul(diff) {
            Some(g) => g,
            None => {
                assert(shares * diff > u128::MAX);
                return Err(RewardError::Overflow);
            },
        };
        let received = match self.rewards_received.checked_add(gain) {
            Some(v) => v,
            None => return Err(RewardError::Overflow),
        };
        let balance = match self.rewards_balance.checked_add(gain) {
            Some(v) => v,
            None => return Err(RewardError::Overflow),
        };
        Ok(ChannelRps { account_rps: contract_rps, rewards_received: received, rewards_balance: balance })
    }
}

/// One account's reward bookkeeping in both channels: the reward token and
/// the native currency.
#[derive(Clone, Copy, Debug, PartialEq, Eq, Structural)]
pub struct RpsManager {
    pub token: ChannelRps,
    pub near: ChannelRps,
}

impl RpsManager {
    /// The entry of an account that has never been settled.
    pub open spec fn fresh(contract_rps_token: u128, contract_rps_near: u128) -> RpsManager {
        RpsManager {
            token: ChannelRps { account_rps: contract_rps_token, rewards_received: 0, rewards_balance: 0 },
            near: ChannelRps { account_rps: contract_rps_near, rewards_received: 0, rewards_balance: 0 },
        }
    }

    /// The entry after settling both channels with `shares` shares held, or
    /// why that cannot be done (the token channel's reason first).
    pub open spec fn updated(self, contract_rps_token: u128, contract_rps_near: u128, shares: u128) -> Result<RpsManager, RewardError> {
        match self.token.settled(contract_rps_token, shares) {
            Err(e) => Err(e),
            Ok(token) => match self.near.settled(contract_rps_near, shares) {
                Err(e) => Err(e),
                Ok(near) => Ok(RpsManager { token, near }),
            },
        }
    }

    /// The entry with both claimable balances set to zero.
    pub open spec fn emptied(self) -> RpsManager {
        RpsManager {
            token: ChannelRps { rewards_balance: 0, ..self.token },
            near: ChannelRps { rewards_balance: 0, ..self.near },
        }
    }

    /// Initializes the entry of a new account at the current counters, so that
    /// it has no claim on rewards deposited before it joined.
    pub fn new(contract_rps_token: u128, contract_rps_near: u128) -> (r: Self)
        ensures
            r == Self::fresh(contract_rps_token, contract_rps_near),
    {
        RpsManager { token: ChannelRps::new(contract_rps_token), near: ChannelRps::new(contract_rps_near) }
    }

    /// Credits the rewards earned by `user_token_balance` shares since the
    /// last settlement, in both channels, and moves the stored counters up to
    /// the current ones. On an error the entry is left as it was.
    pub fn update_rps(&mut self, contract_rps_token: u128, contract_rps_near: u128, user_token_balance: u128) -> (r: Result<(), RewardError>)
        ensures
            match old(self).updated(contract_rps_token, contract_rps_near, user_token_balance) {
                Ok(m) => r is Ok && *final(self) == m,
                Err(e) => r == Err::<(), RewardError>(e) && *final(self) == *old(self),
            },
    {
        let token = match self.token.settle(contract_rps_token, user_token_balance) {
            Ok(t) => t,
            Err(e) => return Err(e),
        };
        let near = match self.near.settle(contract_rps_near, user_token_balance) {
            Ok(n) => n,
            Err(e) => return Err(e),
        };
        self.token = token;
        self.near = near;
        Ok(())
    }

    /// Sets both claimable balances to zero and returns what they were, as
    /// (reward token, native currency). Counters and lifetime totals stay.
    pub fn withdraw_rewards(&mut self) -> (r: (u128, u128))
        ensures
            r == (old(self).token.rewards_balance, old(self).near.rewards_balance),
            *final(self) == old(self).emptied(),
    {
        let transfer_balance_token = self.token.rewards_balance;
        let transfer_balance_near = self.near.rewards_balance;
        self.token.rewards_balance = 0;
        self.near.rewards_balance = 0;
        (transfer_balance_token, transfer_balance_near)
    }
}

} // verus!
