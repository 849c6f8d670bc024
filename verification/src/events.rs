use vstd::prelude::*;
use crate::state::{AccountId, Depositor, Pool};

verus! {

/// Notification that a user staked `amount` into a pool.
#[derive(Clone, Copy, Debug, PartialEq, Eq, Structural)]
pub struct DepositEvent {
    pub user: AccountId,
    pub pool: AccountId,
    pub amount: u64,
}

/// Notification that a user withdrew `amount` of principal from a pool.
#[derive(Clone, Copy, Debug, PartialEq, Eq, Structural)]
pub struct WithdrawEvent {
    pub user: AccountId,
    pub pool: AccountId,
    pub amount: u64,
}

/// Notification that `amount` of the reward asset was paid out to a user.
#[derive(Clone, Copy, Debug, PartialEq, Eq, Structural)]
pub struct RewardsPaidEvent {
    pub user: AccountId,
    pub pool: AccountId,
    pub amount: u64,
}

/// The event a successful deposit emits.
pub open spec fn deposit_event(pool: Pool, user: Depositor, amount: u64) -> DepositEvent {
    DepositEvent { user: user.authority, pool: pool.underlying, amount }
}

/// The event a successful withdrawal emits.
pub open spec fn withdraw_event(pool: Pool, user: Depositor, amount: u64) -> WithdrawEvent {
    WithdrawEvent { user: user.authority, pool: pool.underlying, amount }
}

/// The event a successful, nonzero claim emits.
pub open spec fn rewards_paid_event(pool: Pool, user: Depositor, amount: u64) -> RewardsPaidEvent {
    RewardsPaidEvent { user: user.authority, pool: pool.underlying, amount }
}

} // verus!
