use vstd::prelude::*;

verus! {

/// Identity of an on-ledger account: a user, an asset, or a custodial holder.
/// The library never interprets an identity; it only compares them.
#[derive(Clone, Copy, Debug, PartialEq, Eq, Structural, Hash)]
pub struct AccountId(pub u64);

/// Process-wide singleton configuration: the authority allowed to create
/// pools, the custodial vault, and the asset minted as rewards. Created once
/// at bootstrap and read-only afterwards.
#[derive(Clone, Copy, Debug, PartialEq, Eq, Structural)]
pub struct Genesis {
    /// Identity permitted to create new pools.
    pub authority: AccountId,
    /// Identity that receives the developer share (currently the authority).
    pub dev_share: AccountId,
    /// Asset minted and paid out as rewards.
    pub reward_mint: AccountId,
    /// Custodial holder of staked and reward assets.
    pub vault: AccountId,
}

/// Per-asset staking pool: the staked total, the emission schedule, and the
/// reward-per-share accumulator checkpoint.
#[derive(Clone, Copy, Debug, PartialEq, Eq, Structural)]
pub struct Pool {
    /// The staked asset.
    pub underlying: AccountId,
    /// The custodial account holding the staked assets.
    pub pool_account: AccountId,
    /// Sum of all depositors' shares in this pool.
    pub total_shares: u64,
    /// Reward units emitted per unit time, fixed at pool creation.
    pub reward_rate: u64,
    /// Cumulative rewards per share since inception, scaled by `PRECISION`.
    /// Non-decreasing across every settlement.
    pub reward_per_share: u64,
    /// Timestamp of the last accumulator refresh.
    pub last_update_at: u64,
    /// Timestamp after which no further rewards accrue.
    pub period_finish: u64,
}

/// Per-(user, pool) position: staked shares, the accumulator value last
/// observed, and rewards computed but not yet claimed. A record is created on
/// first deposit and never destroyed; a zero-balance record stays valid.
#[derive(Clone, Copy, Debug, PartialEq, Eq, Structural)]
pub struct Depositor {
    /// The user who alone may withdraw and claim.
    pub authority: AccountId,
    /// The user's proportional stake; never exceeds the pool's total.
    pub shares: u64,
    /// Rewards accrued but not yet claimed.
    pub rewards: u64,
    /// The accumulator value last seen by this user: only the delta above it
    /// counts as newly earned.
    pub reward_paid_per_shares: u64,
}

impl Depositor {
    /// A fresh position for `owner`: no shares, no pending rewards, and an
    /// accumulator checkpoint of zero.
    pub fn new(owner: AccountId) -> (d: Depositor)
        ensures
            d.authority == owner,
            d.shares == 0,
            d.rewards == 0,
            d.reward_paid_per_shares == 0,
    {
        Depositor { authority: owner, shares: 0, rewards: 0, reward_paid_per_shares: 0 }
    }
}

} // verus!
