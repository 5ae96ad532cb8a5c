use vstd::prelude::*;

use crate::contract::{entry_of, restored, Contract};
use crate::pool::RewardPool;
use crate::rps_manager::{ChannelRps, RpsManager};

verus! {

/// An entry settled at counter `g` gains nothing from being settled at `g`
/// again, whatever the shares.
proof fn lemma_settle_at_same_counter(c: ChannelRps, g: u128, shares: u128)
    requires
        c.account_rps == g,
    ensures
        c.settled(g, shares) == Ok::<ChannelRps, crate::error::RewardError>(c),
{
    assert(c.accrual(g as int, shares as int) == 0) by (nonlinear_arith)
        requires
            c.account_rps == g,
    ;
}

/// Reconciliation is idempotent: settling an account a second time, with no
/// deposit and no change of its shares in between, changes nothing, so its
/// claimable balances stay as the first settlement left them.
pub proof fn lemma_reconciliation_idempotent(c: Contract, account: Seq<char>, shares: u128)
    requires
        c.reconciled(account, shares) is Ok,
    ensures
        ({
            let m = c.reconciled(account, shares)->Ok_0;
            let tr = c.token_pool.contract_rps;
            let nr = c.near_pool.contract_rps;
            entry_of(c.accounts_rps@.insert(account, m), account, tr, nr).updated(tr, nr, shares) == Ok::<
                RpsManager,
                crate::error::RewardError,
            >(m)
        }),
{
    let m = c.reconciled(account, shares)->Ok_0;
    lemma_settle_at_same_counter(m.token, c.token_pool.contract_rps, shares);
    lemma_settle_at_same_counter(m.near, c.near_pool.contract_rps, shares);
}

/// A successful claim leaves nothing to claim in either channel: settling the
/// claimed entry again finds both balances at zero. If the reward-token
/// transfer then fails and its amount is put back, the reward-token balance
/// that reconciliation finds is the one before the claim.
pub proof fn lemma_claim_zeroing(c: Contract, account: Seq<char>, shares: u128)
    requires
        c.reconciled(account, shares) is Ok,
    ensures
        ({
            let m = c.reconciled(account, shares)->Ok_0;
            let tr = c.token_pool.contract_rps;
            let nr = c.near_pool.contract_rps;
            let claimed = c.accounts_rps@.insert(account, m.emptied());
            let after_claim = entry_of(claimed, account, tr, nr).updated(tr, nr, shares);
            let e = entry_of(claimed, account, tr, nr);
            let rolled_back = claimed.insert(account, restored(e, m.token.rewards_balance));
            let after_failure = entry_of(rolled_back, account, tr, nr).updated(tr, nr, shares);
            &&& after_claim is Ok
            &&& after_claim->Ok_0.token.rewards_balance == 0
            &&& after_claim->Ok_0.near.rewards_balance == 0
            &&& e.token.rewards_balance + m.token.rewards_balance <= u128::MAX
            &&& after_failure is Ok
            &&& after_failure->Ok_0.token.rewards_balance == m.token.rewards_balance
        }),
{
    let m = c.reconciled(account, shares)->Ok_0;
    let tr = c.token_pool.contract_rps;
    let nr = c.near_pool.contract_rps;
    let e = m.emptied();
    lemma_settle_at_same_counter(e.token, tr, shares);
    lemma_settle_at_same_counter(e.near, nr, shares);
    let r = restored(e, m.token.rewards_balance);
    lemma_settle_at_same_counter(r.token, tr, shares);
    lemma_settle_at_same_counter(r.near, nr, shares);
}

/// Proportionality: with the lifetime sum a multiple of the supply `S`, a
/// deposit of `D` credits an account holding `s` shares, settled at the
/// counter before the deposit, with exactly `floor(D / S) * s`.
pub proof fn lemma_proportionality(p: RewardPool, e: ChannelRps, amount: u128, total_supply: u128, shares: u128)
    requires
        total_supply > 0,
        p.all_time_count % total_supply == 0,
        p.contract_rps == p.all_time_count / total_supply,
        e.account_rps == p.contract_rps,
        p.deposited(amount, total_supply) is Ok,
        e.settled(p.deposited(amount, total_supply)->Ok_0.contract_rps, shares) is Ok,
    ensures
        e.settled(p.deposited(amount, total_supply)->Ok_0.contract_rps, shares)->Ok_0.rewards_balance
            == e.rewards_balance + (amount / total_supply) * shares,
{
    let t = p.all_time_count as int;
    let d = amount as int;
    let s = total_supply as int;
    let k = t / s;
    vstd::arithmetic::div_mod::lemma_fundamental_div_mod(t, s);
    assert(t == k * s);
    vstd::arithmetic::div_mod::lemma_hoist_over_denominator(d, k, s as nat);
    assert((t + d) / s == d / s + k);
    let g = p.deposited(amount, total_supply)->Ok_0.contract_rps;
    assert(g - e.account_rps == d / s);
    assert(e.accrual(g as int, shares as int) == (d / s) * shares) by (nonlinear_arith)
        requires
            g - e.account_rps == d / s,
            e.accrual(g as int, shares as int) == shares * (g - e.account_rps),
    ;
}

/// Transfer neutrality: after the reward side of a transfer of `amount`
/// shares from `a` to `b`, what the two accounts can claim, settled with
/// their new share counts, adds up (in each channel) to what they had earned
/// with their counts before the transfer. Neither one's claim changes.
pub proof fn lemma_transfer_neutrality(
    c: Contract,
    a: Seq<char>,
    a_shares: u128,
    b: Seq<char>,
    b_shares: u128,
    amount: u128,
)
    requires
        a != b,
        amount <= a_shares,
        b_shares + amount <= u128::MAX,
        c.after_share_transfer(a, a_shares, b, b_shares) is Ok,
    ensures
        ({
            let m = c.after_share_transfer(a, a_shares, b, b_shares)->Ok_0;
            let tr = c.token_pool.contract_rps;
            let nr = c.near_pool.contract_rps;
            let a_after = entry_of(m, a, tr, nr).updated(tr, nr, (a_shares - amount) as u128);
            let b_after = entry_of(m, b, tr, nr).updated(tr, nr, (b_shares + amount) as u128);
            let a_before = c.reconciled(a, a_shares);
            let b_before = c.reconciled(b, b_shares);
            &&& a_before is Ok && b_before is Ok
            &&& a_after is Ok && b_after is Ok
            &&& a_after->Ok_0.token.rewards_balance + b_after->Ok_0.token.rewards_balance
                == a_before->Ok_0.token.rewards_balance + b_before->Ok_0.token.rewards_balance
            &&& a_after->Ok_0.near.rewards_balance + b_after->Ok_0.near.rewards_balance
                == a_before->Ok_0.near.rewards_balance + b_before->Ok_0.near.rewards_balance
            &&& a_after->Ok_0 == a_before->Ok_0
            &&& b_after->Ok_0 == b_before->Ok_0
        }),
{
    let tr = c.token_pool.contract_rps;
    let nr = c.near_pool.contract_rps;
    let ma = c.reconciled(a, a_shares)->Ok_0;
    let mid = c.accounts_rps@.insert(a, ma);
    assert(entry_of(mid, b, tr, nr) == c.entry(b));
    let mb = c.reconciled(b, b_shares)->Ok_0;
    let m = c.after_share_transfer(a, a_shares, b, b_shares)->Ok_0;
    assert(m == mid.insert(b, mb));
    assert(entry_of(m, a, tr, nr) == ma);
    assert(entry_of(m, b, tr, nr) == mb);
    lemma_settle_at_same_counter(ma.token, tr, (a_shares - amount) as u128);
    lemma_settle_at_same_counter(ma.near, nr, (a_shares - amount) as u128);
    lemma_settle_at_same_counter(mb.token, tr, (b_shares + amount) as u128);
    lemma_settle_at_same_counter(mb.near, nr, (b_shares + amount) as u128);
}

} // verus!
