use vstd::prelude::*;
use vstd::arithmetic::div_mod::{lemma_div_of0, lemma_div_pos_is_pos};
use vstd::arithmetic::mul::lemma_mul_nonnegative;
use crate::pool::{depositor_consistent, settle_fits, settled_pool, settled_user, spec_earned,
    spec_reward_per_token, PRECISION};
use crate::state::{Depositor, Pool};

verus! {

/// Monotonic accumulator: the reward-per-share value at any time is at least
/// the stored checkpoint, so settling — which replaces the checkpoint by this
/// value — never lowers it. Chained over any sequence of settlements, the
/// accumulator is non-decreasing.
pub proof fn lemma_accumulator_monotonic(pool: Pool, now: u64)
    ensures
        spec_reward_per_token(pool, now) >= pool.reward_per_share,
{
    if pool.total_shares > 0 {
        let e = crate::pool::spec_elapsed(pool, now);
        let emitted = e * (pool.reward_rate as int);
        let scaled = emitted * (PRECISION as int);
        lemma_mul_nonnegative(e, pool.reward_rate as int);
        lemma_mul_nonnegative(emitted, PRECISION as int);
        lemma_div_pos_is_pos(scaled, pool.total_shares as int);
    }
}

/// Zero-share pause: while a pool has no shares outstanding, emission stops —
/// the accumulator and the refresh timestamp stay put, and no rewards are
/// accrued or orphaned — until the next settlement that sees a nonzero share
/// total. The acting depositor's shares and pending rewards are equally
/// untouched; only that depositor's checkpoint is brought up to the frozen
/// accumulator, so shares deposited into a drained pool earn nothing for time
/// before the deposit.
pub proof fn lemma_zero_share_pause(pool: Pool, d: Depositor, now: u64)
    requires
        pool.total_shares == 0,
    ensures
        settled_pool(pool, now) == pool,
        settled_user(pool, d, now) == (Depositor {
            reward_paid_per_shares: pool.reward_per_share,
            ..d
        }),
        settled_user(pool, d, now).rewards == d.rewards,
        settled_user(pool, d, now).shares == d.shares,
{
}

/// No accrual past the period end: once a settlement has reached the end of
/// the emission period, a later settlement neither advances the accumulator
/// nor grows the pending rewards — settling twice after the period produces
/// identical pending rewards both times.
pub proof fn lemma_no_accrual_past_period_end(pool: Pool, d: Depositor, t1: u64, t2: u64)
    requires
        depositor_consistent(pool, d),
        pool.period_finish <= t1,
        t1 <= t2,
        settle_fits(pool, d, t1),
    ensures
        ({
            let p1 = settled_pool(pool, t1);
            let d1 = settled_user(pool, d, t1);
            &&& spec_reward_per_token(p1, t2) == p1.reward_per_share
            &&& settled_user(p1, d1, t2).rewards == d1.rewards
            &&& settled_pool(p1, t2).reward_per_share == p1.reward_per_share
        }),
{
    if pool.total_shares > 0 {
        let p1 = settled_pool(pool, t1);
        let d1 = settled_user(pool, d, t1);
        assert(crate::pool::spec_elapsed(p1, t2) == 0);
        lemma_div_of0(p1.total_shares as int);
        assert(spec_reward_per_token(p1, t2) == p1.reward_per_share);
        assert(d1.reward_paid_per_shares == p1.reward_per_share);
        lemma_div_of0(PRECISION as int);
        assert(spec_earned(p1, d1, t2) == d1.rewards);
    }
}

/// Checkpoint correctness: a depositor with nothing pending who holds
/// `shares` checkpointed at accumulator value `A0` is owed exactly
/// `shares * (A1 - A0) / PRECISION` once the accumulator reaches `A1` —
/// integer division, rounded down, never up.
pub proof fn lemma_checkpoint_correctness(pool: Pool, d: Depositor, now: u64)
    requires
        depositor_consistent(pool, d),
        d.rewards == 0,
        pool.total_shares > 0,
        settle_fits(pool, d, now),
    ensures
        settled_user(pool, d, now).rewards == (d.shares as int) * (spec_reward_per_token(pool, now)
            - d.reward_paid_per_shares) / (PRECISION as int),
{
    lemma_accumulator_monotonic(pool, now);
    let gap = spec_reward_per_token(pool, now) - d.reward_paid_per_shares;
    lemma_mul_nonnegative(d.shares as int, gap);
    lemma_div_pos_is_pos((d.shares as int) * gap, PRECISION as int);
}

/// Claim idempotence: after a settlement at `now` followed by a claim that
/// zeroes the pending rewards, a second claim at the same time finds the pair
/// exactly as the first left it and nothing further to pay: it settles to the
/// identical state, pays zero, and emits nothing.
pub proof fn lemma_claim_idempotent(pool: Pool, d: Depositor, now: u64)
    requires
        depositor_consistent(pool, d),
        settle_fits(pool, d, now),
    ensures
        ({
            let p1 = settled_pool(pool, now);
            let d1 = (Depositor { rewards: 0, ..settled_user(pool, d, now) });
            &&& settle_fits(p1, d1, now)
            &&& settled_pool(p1, now) == p1
            &&& settled_user(p1, d1, now) == d1
            &&& settled_user(p1, d1, now).rewards == 0
        }),
{
    if pool.total_shares > 0 {
        let p1 = settled_pool(pool, now);
        let d1 = (Depositor { rewards: 0, ..settled_user(pool, d, now) });
        assert(crate::pool::spec_elapsed(p1, now) == 0);
        lemma_div_of0(p1.total_shares as int);
        assert(spec_reward_per_token(p1, now) == p1.reward_per_share);
        lemma_div_of0(PRECISION as int);
        assert((d1.shares as int) * (spec_reward_per_token(p1, now)
            - d1.reward_paid_per_shares) == (d1.shares as int) * 0);
        assert(spec_earned(p1, d1, now) == 0);
    }
}

/// Total staked shares recorded across a sequence of depositor records.
pub open spec fn sum_shares(ds: Seq<Depositor>) -> int
    decreases ds.len(),
{
    if ds.len() == 0 {
        0
    } else {
        sum_shares(ds.drop_last()) + ds.last().shares
    }
}

/// Replacing one record in a sequence changes the recorded total by exactly
/// the change in that record's shares.
pub proof fn lemma_sum_shares_update(ds: Seq<Depositor>, i: int, d: Depositor)
    requires
        0 <= i < ds.len(),
    ensures
        sum_shares(ds.update(i, d)) == sum_shares(ds) - ds[i].shares + d.shares,
    decreases ds.len(),
{
    let upd = ds.update(i, d);
    if i == ds.len() - 1 {
        assert(upd.drop_last() =~= ds.drop_last());
    } else {
        assert(upd.drop_last() =~= ds.drop_last().update(i, d));
        lemma_sum_shares_update(ds.drop_last(), i, d);
    }
}

/// Conservation: if a pool's recorded total equals the sum of its depositors'
/// shares, and a transition moves the total and one depositor's shares by the
/// same amount — as a deposit does upward and a withdrawal does downward,
/// while settlements and claims move neither — then the equality holds again
/// after the transition.
pub proof fn lemma_conservation(ds: Seq<Depositor>, i: int, d: Depositor, total: u64, total2: u64)
    requires
        0 <= i < ds.len(),
        total == sum_shares(ds),
        (total2 as int) - (total as int) == (d.shares as int) - (ds[i].shares as int),
    ensures
        total2 == sum_shares(ds.update(i, d)),
{
    lemma_sum_shares_update(ds, i, d);
}

} // verus!
