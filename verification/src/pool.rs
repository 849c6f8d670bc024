use vstd::prelude::*;
use vstd::arithmetic::div_mod::{lemma_div_is_ordered, lemma_div_multiples_vanish};
use vstd::arithmetic::mul::lemma_mul_upper_bound;
use crate::errors::GenesisError;
use crate::laws::lemma_accumulator_monotonic;
use crate::state::{Depositor, Pool};

verus! {

/// Fixed-point scale of the reward-per-share accumulator: fractional rewards
/// per share are carried in integer arithmetic scaled up by this factor.
pub const PRECISION: u64 = 1_000_000_000;

/// The moment up to which rewards still accrue: `now`, clamped to the end of
/// the emission period.
pub open spec fn applicable_time(pool: Pool, now: u64) -> int {
    if now < pool.period_finish {
        now as int
    } else {
        pool.period_finish as int
    }
}

/// Emission time since the last accumulator refresh. Zero once the refresh
/// already reached the end of the period: never negative.
pub open spec fn spec_elapsed(pool: Pool, now: u64) -> int {
    if applicable_time(pool, now) > pool.last_update_at {
        applicable_time(pool, now) - pool.last_update_at
    } else {
        0
    }
}

/// Mathematical value of the reward-per-share accumulator at `now`: unchanged
/// while nobody holds shares (emission pauses rather than dividing by zero),
/// otherwise advanced by `elapsed * rate * PRECISION / total_shares`.
pub open spec fn spec_reward_per_token(pool: Pool, now: u64) -> int {
    if pool.total_shares == 0 {
        pool.reward_per_share as int
    } else {
        pool.reward_per_share + spec_elapsed(pool, now) * (pool.reward_rate as int) * (
        PRECISION as int) / (pool.total_shares as int)
    }
}

/// Rewards owed to `d` once the accumulator stands at `latest`: the delta
/// above the user's checkpoint, per share, unscaled, plus what was already
/// pending. Integer division: rounded down, never up.
pub open spec fn spec_earnings(d: Depositor, latest: u64) -> int {
    (d.shares as int) * ((latest as int) - (d.reward_paid_per_shares as int)) / (
    PRECISION as int) + d.rewards
}

/// Rewards owed to `d` at time `now`, against the accumulator's mathematical
/// value at that time.
pub open spec fn spec_earned(pool: Pool, d: Depositor, now: u64) -> int {
    (d.shares as int) * (spec_reward_per_token(pool, now) - d.reward_paid_per_shares) / (
    PRECISION as int) + d.rewards
}

/// Whether the accumulator's value at `now` still fits the 64-bit ledger
/// representation.
pub open spec fn accumulator_fits(pool: Pool, now: u64) -> bool {
    spec_reward_per_token(pool, now) <= u64::MAX
}

/// Whether a settlement of this pool/depositor pair at `now` fits the 64-bit
/// ledger representation throughout. With no shares outstanding a settlement
/// changes nothing, so it always fits.
pub open spec fn settle_fits(pool: Pool, d: Depositor, now: u64) -> bool {
    pool.total_shares == 0 || (accumulator_fits(pool, now) && spec_earned(pool, d, now)
        <= u64::MAX)
}

/// The pool after a settlement at `now`: accumulator and refresh timestamp
/// brought to the present, everything else untouched. With no shares
/// outstanding the pool is returned unchanged, so a zero-share stretch of
/// time leaves no trace.
pub open spec fn settled_pool(pool: Pool, now: u64) -> Pool {
    if pool.total_shares == 0 {
        pool
    } else {
        Pool {
            reward_per_share: spec_reward_per_token(pool, now) as u64,
            last_update_at: now,
            ..pool
        }
    }
}

/// The depositor after a settlement at `now`: pending rewards brought up to
/// date and the checkpoint moved to the accumulator's current value. While
/// the pool has no shares outstanding the accumulator is frozen and nothing
/// is earned, but the checkpoint is still brought up to the frozen value:
/// otherwise a deposit into a drained pool would leave the checkpoint below
/// the accumulator and earn rewards retroactively, for time before the
/// deposit.
pub open spec fn settled_user(pool: Pool, d: Depositor, now: u64) -> Depositor {
    if pool.total_shares == 0 {
        Depositor { reward_paid_per_shares: pool.reward_per_share, ..d }
    } else {
        Depositor {
            rewards: spec_earned(pool, d, now) as u64,
            reward_paid_per_shares: spec_reward_per_token(pool, now) as u64,
            ..d
        }
    }
}

/// Joint well-formedness of a pool and one of its depositor records: the
/// record's checkpoint never runs ahead of the pool's accumulator, and its
/// shares never exceed the pool's total. Constructors establish it and every
/// transition preserves it.
pub open spec fn depositor_consistent(pool: Pool, d: Depositor) -> bool {
    &&& d.reward_paid_per_shares <= pool.reward_per_share
    &&& d.shares <= pool.total_shares
}

impl Pool {
    /// The reward-per-share accumulator brought to `current_ts`.
    ///
    /// Returns `Err(Overflow)` exactly when the mathematical value exceeds
    /// `u64::MAX`; an overflow is reported, never wrapped.
    pub fn reward_per_token(&self, current_ts: u64) -> (r: Result<u64, GenesisError>)
        ensures
            r is Ok <==> accumulator_fits(*self, current_ts),
            r matches Ok(v) ==> v == spec_reward_per_token(*self, current_ts),
            r is Err ==> r == Err::<u64, GenesisError>(GenesisError::Overflow),
    {
        if self.total_shares == 0 {
            return Ok(self.reward_per_share);
        }
        let applicable: u64 = if current_ts < self.period_finish {
            current_ts
        } else {
            self.period_finish
        };
        let elapsed: u64 = if applicable > self.last_update_at {
            applicable - self.last_update_at
        } else {
            0
        };
        proof {
            lemma_mul_upper_bound(
                elapsed as int,
                u64::MAX as int,
                self.reward_rate as int,
                u64::MAX as int,
            );
        }
        let emitted: u128 = (elapsed as u128) * (self.reward_rate as u128);
        if emitted > u128::MAX / (PRECISION as u128) {
            proof {
                let scaled = (emitted as int) * (PRECISION as int);
                let s = self.total_shares as int;
                let bound = (u64::MAX as int) + 1;
                assert(scaled >= bound * s) by {
                    assert(bound * s <= bound * (u64::MAX as int));
                };
                lemma_div_multiples_vanish(bound, s);
                lemma_div_is_ordered(s * bound, scaled, s);
            }
            return Err(GenesisError::Overflow);
        }
        let scaled: u128 = emitted * (PRECISION as u128);
        let delta: u128 = scaled / (self.total_shares as u128);
        if delta > ((u64::MAX - self.reward_per_share) as u128) {
            return Err(GenesisError::Overflow);
        }
        Ok(self.reward_per_share + (delta as u64))
    }

    /// Rewards owed to `user` once the accumulator stands at
    /// `latest_reward_per_token`: the newly earned delta above the user's
    /// checkpoint plus the rewards already pending.
    ///
    /// Returns `Err(Overflow)` exactly when the total exceeds `u64::MAX`.
    pub fn user_earnings(&self, user: &Depositor, latest_reward_per_token: u64) -> (r: Result<
        u64,
        GenesisError,
    >)
        requires
            user.reward_paid_per_shares <= latest_reward_per_token,
        ensures
            r is Ok <==> spec_earnings(*user, latest_reward_per_token) <= u64::MAX,
            r matches Ok(v) ==> v == spec_earnings(*user, latest_reward_per_token),
            r is Err ==> r == Err::<u64, GenesisError>(GenesisError::Overflow),
    {
        let delta_per_share: u64 = latest_reward_per_token - user.reward_paid_per_shares;
        proof {
            lemma_mul_upper_bound(
                user.shares as int,
                u64::MAX as int,
                delta_per_share as int,
                u64::MAX as int,
            );
        }
        let accrued: u128 = (user.shares as u128) * (delta_per_share as u128);
        let fresh: u128 = accrued / (PRECISION as u128);
        if fresh > ((u64::MAX - user.rewards) as u128) {
            return Err(GenesisError::Overflow);
        }
        Ok(user.rewards + (fresh as u64))
    }

    /// Settlement: brings the pool's accumulator and `user`'s reward
    /// bookkeeping to `now`, so a balance change can then be applied against
    /// up-to-date accounting. While nobody holds shares, emission is paused —
    /// the pool stays untouched — but the acting depositor's checkpoint is
    /// still brought up to the frozen accumulator, so nothing ever accrues
    /// for time before a deposit. On overflow both records are left exactly
    /// as they were and `Err(Overflow)` is reported.
    pub fn update_rewards(&mut self, user: &mut Depositor, now: u64) -> (r: Result<
        (),
        GenesisError,
    >)
        requires
            depositor_consistent(*old(self), *old(user)),
        ensures
            r is Ok <==> settle_fits(*old(self), *old(user), now),
            r is Ok ==> *final(self) == settled_pool(*old(self), now) && *final(user)
                == settled_user(*old(self), *old(user), now),
            r is Err ==> *final(self) == *old(self) && *final(user) == *old(user) && r == Err::<
                (),
                GenesisError,
            >(GenesisError::Overflow),
            final(self).reward_per_share >= old(self).reward_per_share,
            depositor_consistent(*final(self), *final(user)),
            final(self).total_shares == old(self).total_shares,
            final(user).shares == old(user).shares,
    {
        if self.total_shares == 0 {
            user.reward_paid_per_shares = self.reward_per_share;
            return Ok(());
        }
        let current: u64 = match self.reward_per_token(now) {
            Ok(v) => v,
            Err(e) => { return Err(e); },
        };
        proof {
            lemma_accumulator_monotonic(*self, now);
        }
        let earned: u64 = match self.user_earnings(user, current) {
            Ok(v) => v,
            Err(e) => { return Err(e); },
        };
        self.reward_per_share = current;
        self.last_update_at = now;
        user.rewards = earned;
        user.reward_paid_per_shares = current;
        Ok(())
    }
}

} // verus!
