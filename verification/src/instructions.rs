use vstd::prelude::*;
use crate::errors::GenesisError;
use crate::events::{deposit_event, rewards_paid_event, withdraw_event, DepositEvent,
    RewardsPaidEvent, WithdrawEvent};
use crate::pool::{depositor_consistent, settle_fits, settled_pool, settled_user};
use crate::state::{AccountId, Depositor, Genesis, Pool};

verus! {

/// Creates the global configuration record, once, at bootstrap. The
/// surrounding environment funds the fresh vault account with rent;
/// `rent_funded` is its report. If that funding transfer failed, nothing is
/// created.
pub fn initialize(
    authority: AccountId,
    reward_mint: AccountId,
    vault: AccountId,
    rent_funded: bool,
) -> (r: Result<Genesis, GenesisError>)
    ensures
        rent_funded ==> (r matches Ok(g) && g.authority == authority && g.dev_share == authority
            && g.reward_mint == reward_mint && g.vault == vault),
        !rent_funded ==> r == Err::<Genesis, GenesisError>(GenesisError::TransferFailed),
{
    if !rent_funded {
        return Err(GenesisError::TransferFailed);
    }
    Ok(
        Genesis {
            authority,
            dev_share: authority,
            reward_mint,
            vault,
        },
    )
}

/// Creates a staking pool for `underlying`, emitting `reward_rate` reward
/// units per unit time until `end_at`. Gated on the global authority: any
/// other signer is turned away with `Unauthorized`. The new pool starts with
/// no shares and an accumulator of zero, checkpointed at `now`.
pub fn add_pool(
    genesis: &Genesis,
    signer: AccountId,
    underlying: AccountId,
    pool_account: AccountId,
    reward_rate: u64,
    end_at: u64,
    now: u64,
) -> (r: Result<Pool, GenesisError>)
    ensures
        signer != genesis.authority ==> r == Err::<Pool, GenesisError>(GenesisError::Unauthorized),
        signer == genesis.authority ==> (r matches Ok(p) && p.underlying == underlying
            && p.pool_account == pool_account && p.total_shares == 0 && p.reward_rate
            == reward_rate && p.reward_per_share == 0 && p.last_update_at == now
            && p.period_finish == end_at),
{
    if signer != genesis.authority {
        return Err(GenesisError::Unauthorized);
    }
    Ok(
        Pool {
            underlying,
            pool_account,
            total_shares: 0,
            reward_rate: reward_rate,
            reward_per_share: 0,
            last_update_at: now,
            period_finish: end_at,
        },
    )
}

/// Stakes `amount` into the pool: settles accrual first, then adds `amount`
/// both to the pool's total and to the user's shares, keeping the two in
/// step. The environment moves the staked asset from the user's custody into
/// the pool's; `transfer_ok` is its report. A zero amount is rejected as
/// `InvalidAmount` rather than silently accepted. On any failure — including
/// a failed transfer or an arithmetic overflow — both records are left
/// exactly as they were.
pub fn deposit(
    pool: &mut Pool,
    user: &mut Depositor,
    amount: u64,
    now: u64,
    transfer_ok: bool,
) -> (r: Result<DepositEvent, GenesisError>)
    requires
        depositor_consistent(*old(pool), *old(user)),
    ensures
        r is Err ==> *final(pool) == *old(pool) && *final(user) == *old(user),
        amount == 0 ==> r == Err::<DepositEvent, GenesisError>(GenesisError::InvalidAmount),
        amount > 0 && !settle_fits(*old(pool), *old(user), now) ==> r == Err::<
            DepositEvent,
            GenesisError,
        >(GenesisError::Overflow),
        amount > 0 && settle_fits(*old(pool), *old(user), now) && !transfer_ok ==> r == Err::<
            DepositEvent,
            GenesisError,
        >(GenesisError::TransferFailed),
        amount > 0 && settle_fits(*old(pool), *old(user), now) && transfer_ok && old(
            pool,
        ).total_shares + amount > u64::MAX ==> r == Err::<DepositEvent, GenesisError>(
            GenesisError::Overflow,
        ),
        amount > 0 && settle_fits(*old(pool), *old(user), now) && transfer_ok && old(
            pool,
        ).total_shares + amount <= u64::MAX ==> {
            &&& r == Ok::<DepositEvent, GenesisError>(deposit_event(*old(pool), *old(user), amount))
            &&& *final(pool) == (Pool {
                total_shares: (old(pool).total_shares + amount) as u64,
                ..settled_pool(*old(pool), now)
            })
            &&& *final(user) == (Depositor {
                shares: (old(user).shares + amount) as u64,
                ..settled_user(*old(pool), *old(user), now)
            })
        },
        depositor_consistent(*final(pool), *final(user)),
{
    if amount == 0 {
        return Err(GenesisError::InvalidAmount);
    }
    let saved_pool: Pool = *pool;
    let saved_user: Depositor = *user;
    match pool.update_rewards(user, now) {
        Ok(()) => {},
        Err(e) => { return Err(e); },
    }
    if !transfer_ok {
        *pool = saved_pool;
        *user = saved_user;
        return Err(GenesisError::TransferFailed);
    }
    if amount > u64::MAX - pool.total_shares {
        *pool = saved_pool;
        *user = saved_user;
        return Err(GenesisError::Overflow);
    }
    pool.total_shares = pool.total_shares + amount;
    user.shares = user.shares + amount;
    Ok(DepositEvent { user: user.authority, pool: pool.underlying, amount })
}

/// Withdraws `amount` of staked principal: settles accrual first, refuses to
/// take more than the user's recorded shares, then subtracts `amount` both
/// from the user's shares and from the pool's total, keeping the pool total
/// equal to the sum of all depositors' shares. The environment moves the
/// asset from pool custody back to the user; `transfer_ok` is its report. A
/// zero amount is rejected as `InvalidAmount`. On any failure both records
/// are left exactly as they were.
pub fn withdraw(
    pool: &mut Pool,
    user: &mut Depositor,
    amount: u64,
    now: u64,
    transfer_ok: bool,
) -> (r: Result<WithdrawEvent, GenesisError>)
    requires
        depositor_consistent(*old(pool), *old(user)),
    ensures
        r is Err ==> *final(pool) == *old(pool) && *final(user) == *old(user),
        amount == 0 ==> r == Err::<WithdrawEvent, GenesisError>(GenesisError::InvalidAmount),
        amount > 0 && !settle_fits(*old(pool), *old(user), now) ==> r == Err::<
            WithdrawEvent,
            GenesisError,
        >(GenesisError::Overflow),
        amount > 0 && settle_fits(*old(pool), *old(user), now) && amount > old(user).shares ==> r
            == Err::<WithdrawEvent, GenesisError>(GenesisError::InsufficientStake),
        amount > 0 && settle_fits(*old(pool), *old(user), now) && amount <= old(user).shares
            && !transfer_ok ==> r == Err::<WithdrawEvent, GenesisError>(
            GenesisError::TransferFailed,
        ),
        amount > 0 && settle_fits(*old(pool), *old(user), now) && amount <= old(user).shares
            && transfer_ok ==> {
            &&& r == Ok::<WithdrawEvent, GenesisError>(
                withdraw_event(*old(pool), *old(user), amount),
            )
            &&& *final(pool) == (Pool {
                total_shares: (old(pool).total_shares - amount) as u64,
                ..settled_pool(*old(pool), now)
            })
            &&& *final(user) == (Depositor {
                shares: (old(user).shares - amount) as u64,
                ..settled_user(*old(pool), *old(user), now)
            })
        },
        depositor_consistent(*final(pool), *final(user)),
{
    if amount == 0 {
        return Err(GenesisError::InvalidAmount);
    }
    let saved_pool: Pool = *pool;
    let saved_user: Depositor = *user;
    match pool.update_rewards(user, now) {
        Ok(()) => {},
        Err(e) => { return Err(e); },
    }
    if amount > user.shares {
        *pool = saved_pool;
        *user = saved_user;
        return Err(GenesisError::InsufficientStake);
    }
    if !transfer_ok {
        *pool = saved_pool;
        *user = saved_user;
        return Err(GenesisError::TransferFailed);
    }
    user.shares = user.shares - amount;
    pool.total_shares = pool.total_shares - amount;
    Ok(WithdrawEvent { user: user.authority, pool: pool.underlying, amount })
}

/// Claims all pending rewards: settles accrual first, zeroes the pending
/// balance and reports the claimed amount. On a nonzero amount the
/// environment mints that much of the reward asset to the user; `mint_ok` is
/// its report, and a failed mint leaves both records exactly as they were —
/// nothing is zeroed that was not paid. A claim with nothing pending is an
/// idempotent no-op: it settles, pays nothing, emits nothing.
pub fn claim_rewards(
    pool: &mut Pool,
    user: &mut Depositor,
    now: u64,
    mint_ok: bool,
) -> (r: Result<(u64, Option<RewardsPaidEvent>), GenesisError>)
    requires
        depositor_consistent(*old(pool), *old(user)),
    ensures
        r is Err ==> *final(pool) == *old(pool) && *final(user) == *old(user),
        !settle_fits(*old(pool), *old(user), now) ==> r == Err::<
            (u64, Option<RewardsPaidEvent>),
            GenesisError,
        >(GenesisError::Overflow),
        settle_fits(*old(pool), *old(user), now) && settled_user(
            *old(pool),
            *old(user),
            now,
        ).rewards == 0 ==> {
            &&& r == Ok::<(u64, Option<RewardsPaidEvent>), GenesisError>(
                (0u64, None::<RewardsPaidEvent>),
            )
            &&& *final(pool) == settled_pool(*old(pool), now)
            &&& *final(user) == settled_user(*old(pool), *old(user), now)
        },
        settle_fits(*old(pool), *old(user), now) && settled_user(
            *old(pool),
            *old(user),
            now,
        ).rewards > 0 && !mint_ok ==> r == Err::<(u64, Option<RewardsPaidEvent>), GenesisError>(
            GenesisError::MintFailed,
        ),
        settle_fits(*old(pool), *old(user), now) && settled_user(
            *old(pool),
            *old(user),
            now,
        ).rewards > 0 && mint_ok ==> {
            &&& r == Ok::<(u64, Option<RewardsPaidEvent>), GenesisError>(
                (
                    settled_user(*old(pool), *old(user), now).rewards,
                    Some(
                        rewards_paid_event(
                            *old(pool),
                            *old(user),
                            settled_user(*old(pool), *old(user), now).rewards,
                        ),
                    ),
                ),
            )
            &&& *final(pool) == settled_pool(*old(pool), now)
            &&& *final(user) == (Depositor {
                rewards: 0,
                ..settled_user(*old(pool), *old(user), now)
            })
        },
        depositor_consistent(*final(pool), *final(user)),
{
    let saved_pool: Pool = *pool;
    let saved_user: Depositor = *user;
    match pool.update_rewards(user, now) {
        Ok(()) => {},
        Err(e) => { return Err(e); },
    }
    let rewards: u64 = user.rewards;
    if rewards == 0 {
        return Ok((0, None));
    }
    if !mint_ok {
        *pool = saved_pool;
        *user = saved_user;
        return Err(GenesisError::MintFailed);
    }
    user.rewards = 0;
    Ok(
        (
            rewards,
            Some(RewardsPaidEvent { user: user.authority, pool: pool.underlying, amount: rewards }),
        ),
    )
}

} // verus!
