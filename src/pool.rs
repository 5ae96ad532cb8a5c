use vstd::prelude::*;

use crate::error::RewardError;

verus! {

/// The global accumulator of one reward channel.
#[derive(Clone, Copy, Debug, PartialEq, Eq, Structural)]
pub struct RewardPool {
    /// Lifetime sum of all deposits into the channel.
    pub all_time_count: u128,
    /// Reward per share: the lifetime sum divided by the share supply, rounded
    /// down, as of the last deposit.
    pub contract_rps: u128,
}

impl RewardPool {
    /// The accumulator after a deposit of `amount` with `total_supply` shares
    /// in existence, or why the deposit is refused. The counter is recomputed
    /// from the lifetime sum, so a remainder left by one division is picked up
    /// by a later one.
    pub open spec fn deposited(self, amount: u128, total_supply: u128) -> Result<RewardPool, RewardError> {
        if total_supply == 0 {
            Err(RewardError::ZeroSupply)
        } else if self.all_time_count + amount > u128::MAX {
            Err(RewardError::Overflow)
        } else {
            Ok(RewardPool {
                all_time_count: (self.all_time_count + amount) as u128,
                contract_rps: ((self.all_time_count + amount) / (total_supply as int)) as u128,
            })
        }
    }

    /// An accumulator that has received nothing.
    pub open spec fn new_spec() -> RewardPool {
        RewardPool { all_time_count: 0, contract_rps: 0 }
    }

    /// An accumulator that has received nothing.
    pub fn new() -> (r: Self)
        ensures
            r == Self::new_spec(),
    {
        RewardPool { all_time_count: 0, contract_rps: 0 }
    }

    /// Folds a deposit into the accumulator; on an error nothing changes.
    pub fn deposit(&mut self, amount: u128, total_supply: u128) -> (r: Result<(), RewardError>)
        ensures
            match old(self).deposited(amount, total_supply) {
                Ok(p) => r is Ok && *final(self) == p,
                Err(e) => r == Err::<(), RewardError>(e) && *final(self) == *old(self),
            },
    {
        if total_supply == 0 {
            return Err(RewardError::ZeroSupply);
        }
        let total = match self.all_time_count.checked_add(amount) {
            Some(t) => t,
            None => return Err(RewardError::Overflow),
        };
        self.all_time_count = total;
        self.contract_rps = total / total_supply;
        Ok(())
    }
}

/// With the share supply unchanged, a deposit never lowers the counter.
pub proof fn lemma_deposit_monotone(p: RewardPool, amount: u128, total_supply: u128)
    requires
        total_supply > 0,
        p.contract_rps == p.all_time_count / total_supply,
        p.deposited(amount, total_supply) is Ok,
    ensures
        p.deposited(amount, total_supply)->Ok_0.contract_rps >= p.contract_rps,
{
    let t = p.all_time_count as int;
    let s = total_supply as int;
    vstd::arithmetic::div_mod::lemma_div_is_ordered(t, t + amount, s);
}

} // verus!
