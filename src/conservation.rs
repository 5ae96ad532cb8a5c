use vstd::prelude::*;

use crate::pool::RewardPool;
use crate::rps_manager::ChannelRps;

verus! {

/// One account in one channel: its reward entry and the shares it holds.
pub type Holder = (ChannelRps, u128);

/// A move in the life of the contract that claims nothing.
#[derive(Clone, Copy, Debug, PartialEq, Eq, Structural)]
pub enum Step {
    /// A deposit of this many reward units.
    Deposit(u128),
    /// A transfer of `amount` shares from holder `from` to holder `to`.
    Transfer { from: u64, to: u64, amount: u128 },
}

/// What the holder has been credited, plus what its shares earned since it
/// was last settled, at counter `g`.
pub open spec fn earned(h: Holder, g: int) -> int {
    h.0.rewards_received + h.0.accrual(g, h.1 as int)
}

/// Sum of `earned` over all holders.
pub open spec fn total_earned(hs: Seq<Holder>, g: int) -> int
    decreases hs.len(),
{
    if hs.len() == 0 {
        0
    } else {
        total_earned(hs.drop_last(), g) + earned(hs.last(), g)
    }
}

/// Sum of the shares of all holders.
pub open spec fn total_shares(hs: Seq<Holder>) -> int
    decreases hs.len(),
{
    if hs.len() == 0 {
        0
    } else {
        total_shares(hs.drop_last()) + hs.last().1
    }
}

/// Sum of the claimable balances of all holders.
pub open spec fn total_claimable(hs: Seq<Holder>) -> int
    decreases hs.len(),
{
    if hs.len() == 0 {
        0
    } else {
        total_claimable(hs.drop_last()) + hs.last().0.rewards_balance
    }
}

/// The holder settled at counter `g`, if that succeeds.
pub open spec fn settle_holder(h: Holder, g: u128) -> Option<Holder> {
    match h.0.settled(g, h.1) {
        Ok(c) => Some((c, h.1)),
        Err(_) => None,
    }
}

/// Every holder settled at counter `g`, if all succeed.
pub open spec fn settle_all(hs: Seq<Holder>, g: u128) -> Option<Seq<Holder>>
    decreases hs.len(),
{
    if hs.len() == 0 {
        Some(Seq::empty())
    } else {
        match settle_all(hs.drop_last(), g) {
            None => None,
            Some(f) => match settle_holder(hs.last(), g) {
                None => None,
                Some(x) => Some(f.push(x)),
            },
        }
    }
}

/// One step applied to the channel's accumulator and its holders, with
/// `total_supply` shares in existence; `None` where the step is refused. A
/// transfer first settles the sender, then the receiver, then moves the
/// shares.
pub open spec fn apply_step(pool: RewardPool, hs: Seq<Holder>, step: Step, total_supply: u128) -> Option<(RewardPool, Seq<Holder>)> {
    match step {
        Step::Deposit(d) => match pool.deposited(d, total_supply) {
            Ok(p) => Some((p, hs)),
            Err(_) => None,
        },
        Step::Transfer { from, to, amount } => {
            let i = from as int;
            let j = to as int;
            let g = pool.contract_rps;
            if i < hs.len() && j < hs.len() && i != j && amount <= hs[i].1 && hs[j].1 + amount <= u128::MAX {
                match settle_holder(hs[i], g) {
                    None => None,
                    Some(hi) => {
                        let hs1 = hs.update(i, hi);
                        match settle_holder(hs1[j], g) {
                            None => None,
                            Some(hj) => {
                                let hs2 = hs1.update(j, hj);
                                let hs3 = hs2.update(i, (hs2[i].0, (hs2[i].1 - amount) as u128));
                                Some((pool, hs3.update(j, (hs3[j].0, (hs3[j].1 + amount) as u128))))
                            },
                        }
                    },
                }
            } else {
                None
            }
        },
    }
}

/// A sequence of steps applied in order; `None` once one is refused.
pub open spec fn run(pool: RewardPool, hs: Seq<Holder>, steps: Seq<Step>, total_supply: u128) -> Option<(RewardPool, Seq<Holder>)>
    decreases steps.len(),
{
    if steps.len() == 0 {
        Some((pool, hs))
    } else {
        match apply_step(pool, hs, steps[0], total_supply) {
            None => None,
            Some((p, h)) => run(p, h, steps.drop_first(), total_supply),
        }
    }
}

/// What holds of every state reached from the start without claims.
spec fn conserved(pool: RewardPool, hs: Seq<Holder>, total_supply: u128) -> bool {
    &&& total_supply > 0
    &&& total_shares(hs) == total_supply
    &&& pool.contract_rps == pool.all_time_count / total_supply
    &&& forall|k: int| 0 <= k < hs.len() ==> hs[k].0.account_rps <= pool.contract_rps
    &&& forall|k: int| 0 <= k < hs.len() ==> hs[k].0.rewards_balance == hs[k].0.rewards_received
    &&& total_earned(hs, pool.contract_rps as int) == total_supply * pool.contract_rps
}

proof fn lemma_total_earned_update(hs: Seq<Holder>, i: int, x: Holder, g: int)
    requires
        0 <= i < hs.len(),
    ensures
        total_earned(hs.update(i, x), g) == total_earned(hs, g) - earned(hs[i], g) + earned(x, g),
    decreases hs.len(),
{
    if i == hs.len() - 1 {
        assert(hs.update(i, x).drop_last() == hs.drop_last());
    } else {
        assert(hs.update(i, x).drop_last() == hs.drop_last().update(i, x));
        lemma_total_earned_update(hs.drop_last(), i, x, g);
    }
}

proof fn lemma_total_shares_update(hs: Seq<Holder>, i: int, x: Holder)
    requires
        0 <= i < hs.len(),
    ensures
        total_shares(hs.update(i, x)) == total_shares(hs) - hs[i].1 + x.1,
    decreases hs.len(),
{
    if i == hs.len() - 1 {
        assert(hs.update(i, x).drop_last() == hs.drop_last());
    } else {
        assert(hs.update(i, x).drop_last() == hs.drop_last().update(i, x));
        lemma_total_shares_update(hs.drop_last(), i, x);
    }
}

/// Raising the counter from `g` to `g2` adds `(g2 - g)` per share.
proof fn lemma_total_earned_raise(hs: Seq<Holder>, g: int, g2: int)
    ensures
        total_earned(hs, g2) == total_earned(hs, g) + total_shares(hs) * (g2 - g),
    decreases hs.len(),
{
    if hs.len() > 0 {
        lemma_total_earned_raise(hs.drop_last(), g, g2);
        let x = hs.last();
        let s = x.1 as int;
        let a = x.0.account_rps as int;
        assert(s * (g2 - a) == s * (g - a) + s * (g2 - g)) by (nonlinear_arith);
        let ts = total_shares(hs.drop_last());
        assert(ts * (g2 - g) + s * (g2 - g) == (ts + s) * (g2 - g)) by (nonlinear_arith);
    }
}

/// Settling a holder keeps what it has earned and leaves nothing pending.
proof fn lemma_settle_holder(h: Holder, g: u128)
    requires
        settle_holder(h, g) is Some,
    ensures
        earned(settle_holder(h, g)->Some_0, g as int) == earned(h, g as int),
        settle_holder(h, g)->Some_0.0.account_rps == g,
        settle_holder(h, g)->Some_0.1 == h.1,
        h.0.rewards_balance == h.0.rewards_received ==> settle_holder(h, g)->Some_0.0.rewards_balance
            == settle_holder(h, g)->Some_0.0.rewards_received,
        forall|s: u128| earned((settle_holder(h, g)->Some_0.0, s), g as int) == settle_holder(h, g)->Some_0.0.rewards_received,
{
    let c = settle_holder(h, g)->Some_0.0;
    assert forall|s: u128| earned((c, s), g as int) == c.rewards_received by {
        assert(s as int * (g - c.account_rps) == 0) by (nonlinear_arith)
            requires
                c.account_rps == g,
        ;
    }
}

proof fn lemma_settle_all(hs: Seq<Holder>, g: u128)
    requires
        settle_all(hs, g) is Some,
        forall|k: int| 0 <= k < hs.len() ==> hs[k].0.rewards_balance == hs[k].0.rewards_received,
    ensures
        total_earned(settle_all(hs, g)->Some_0, g as int) == total_earned(hs, g as int),
        total_claimable(settle_all(hs, g)->Some_0) == total_earned(hs, g as int),
    decreases hs.len(),
{
    if hs.len() > 0 {
        let f0 = settle_all(hs.drop_last(), g)->Some_0;
        lemma_settle_all(hs.drop_last(), g);
        let x = hs.last();
        lemma_settle_holder(x, g);
        let f = settle_all(hs, g)->Some_0;
        assert(f.drop_last() == f0);
    }
}

proof fn lemma_step(pool: RewardPool, hs: Seq<Holder>, step: Step, total_supply: u128)
    requires
        conserved(pool, hs, total_supply),
        apply_step(pool, hs, step, total_supply) is Some,
    ensures
        conserved(
            apply_step(pool, hs, step, total_supply)->Some_0.0,
            apply_step(pool, hs, step, total_supply)->Some_0.1,
            total_supply,
        ),
{
    let g = pool.contract_rps;
    match step {
        Step::Deposit(d) => {
            crate::pool::lemma_deposit_monotone(pool, d, total_supply);
            let p2 = pool.deposited(d, total_supply)->Ok_0;
            lemma_total_earned_raise(hs, g as int, p2.contract_rps as int);
            let s = total_supply as int;
            assert(s * g + s * (p2.contract_rps - g) == s * p2.contract_rps) by (nonlinear_arith);
        },
        Step::Transfer { from, to, amount } => {
            let i = from as int;
            let j = to as int;
            let hi = settle_holder(hs[i], g)->Some_0;
            let hs1 = hs.update(i, hi);
            lemma_settle_holder(hs[i], g);
            lemma_total_earned_update(hs, i, hi, g as int);
            lemma_total_shares_update(hs, i, hi);
            let hj = settle_holder(hs1[j], g)->Some_0;
            let hs2 = hs1.update(j, hj);
            lemma_settle_holder(hs1[j], g);
            lemma_total_earned_update(hs1, j, hj, g as int);
            lemma_total_shares_update(hs1, j, hj);
            let xi = (hs2[i].0, (hs2[i].1 - amount) as u128);
            let hs3 = hs2.update(i, xi);
            lemma_total_earned_update(hs2, i, xi, g as int);
            lemma_total_shares_update(hs2, i, xi);
            let xj = (hs3[j].0, (hs3[j].1 + amount) as u128);
            let hs4 = hs3.update(j, xj);
            lemma_total_earned_update(hs3, j, xj, g as int);
            lemma_total_shares_update(hs3, j, xj);
            assert(hs4 == apply_step(pool, hs, step, total_supply)->Some_0.1);
            assert forall|k: int| 0 <= k < hs4.len() implies hs4[k].0.account_rps <= g
                && hs4[k].0.rewards_balance == hs4[k].0.rewards_received by {
                if k != i && k != j {
                    assert(hs4[k] == hs[k]);
                }
            }
        },
    }
}

proof fn lemma_run(pool: RewardPool, hs: Seq<Holder>, steps: Seq<Step>, total_supply: u128)
    requires
        conserved(pool, hs, total_supply),
        run(pool, hs, steps, total_supply) is Some,
    ensures
        conserved(run(pool, hs, steps, total_supply)->Some_0.0, run(pool, hs, steps, total_supply)->Some_0.1, total_supply),
    decreases steps.len(),
{
    if steps.len() > 0 {
        lemma_step(pool, hs, steps[0], total_supply);
        let (p, h) = apply_step(pool, hs, steps[0], total_supply)->Some_0;
        lemma_run(p, h, steps.drop_first(), total_supply);
    }
}

proof fn lemma_fresh_holders(hs: Seq<Holder>)
    requires
        forall|k: int| 0 <= k < hs.len() ==> hs[k].0 == ChannelRps::new_spec(0),
    ensures
        total_earned(hs, 0) == 0,
    decreases hs.len(),
{
    if hs.len() > 0 {
        lemma_fresh_holders(hs.drop_last());
        let s = hs.last().1 as int;
        assert(s * (0 - 0) == 0) by (nonlinear_arith);
    }
}

/// Conservation: start from fresh holders of `total_supply` shares and an
/// empty accumulator, apply any sequence of deposits and transfers, then
/// reconcile every holder. What all of them can claim adds up to the lifetime
/// deposits less a remainder, the lifetime sum modulo the supply, which is at
/// most the supply less one.
pub proof fn lemma_conservation(hs: Seq<Holder>, steps: Seq<Step>, total_supply: u128)
    requires
        total_supply > 0,
        total_shares(hs) == total_supply,
        forall|k: int| 0 <= k < hs.len() ==> hs[k].0 == ChannelRps::new_spec(0),
    ensures
        match run(RewardPool::new_spec(), hs, steps, total_supply) {
            None => true,
            Some((p, h)) => match settle_all(h, p.contract_rps) {
                None => true,
                Some(f) => {
                    &&& total_claimable(f) == p.all_time_count - p.all_time_count % total_supply
                    &&& p.all_time_count % total_supply <= total_supply - 1
                },
            },
        },
{
    lemma_fresh_holders(hs);
    let p0 = RewardPool::new_spec();
    assert(0int / (total_supply as int) == 0);
    assert(total_supply * 0 == 0);
    assert(conserved(p0, hs, total_supply));
    if run(p0, hs, steps, total_supply) is Some {
        lemma_run(p0, hs, steps, total_supply);
        let (p, h) = run(p0, hs, steps, total_supply)->Some_0;
        if settle_all(h, p.contract_rps) is Some {
            lemma_settle_all(h, p.contract_rps);
            let t = p.all_time_count as int;
            let s = total_supply as int;
            vstd::arithmetic::div_mod::lemma_fundamental_div_mod(t, s);
            vstd::arithmetic::div_mod::lemma_mod_bound(t, s);
        }
    }
}

} // verus!
