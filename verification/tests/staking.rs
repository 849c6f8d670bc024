use solana_tomb::errors::GenesisError;
use solana_tomb::instructions::{add_pool, claim_rewards, deposit, initialize, withdraw};
use solana_tomb::pool::PRECISION;
use solana_tomb::state::{AccountId, Depositor, Genesis, Pool};

fn genesis() -> Genesis {
    initialize(AccountId(1), AccountId(2), AccountId(3), true).unwrap()
}

fn fresh_pool(reward_rate: u64, period_finish: u64, now: u64) -> Pool {
    let g = genesis();
    add_pool(
        &g,
        AccountId(1),
        AccountId(10),
        AccountId(11),
        reward_rate,
        period_finish,
        now,
    )
    .unwrap()
}

#[test]
fn initialize_records_identities() {
    let g = genesis();
    assert_eq!(g.authority, AccountId(1));
    assert_eq!(g.dev_share, AccountId(1));
    assert_eq!(g.reward_mint, AccountId(2));
    assert_eq!(g.vault, AccountId(3));
}

#[test]
fn initialize_fails_when_rent_transfer_fails() {
    let r = initialize(AccountId(1), AccountId(2), AccountId(3), false);
    assert_eq!(r, Err(GenesisError::TransferFailed));
}

#[test]
fn add_pool_initializes_fields() {
    let p = fresh_pool(100, 1000, 7);
    assert_eq!(p.underlying, AccountId(10));
    assert_eq!(p.pool_account, AccountId(11));
    assert_eq!(p.total_shares, 0);
    assert_eq!(p.reward_rate, 100);
    assert_eq!(p.reward_per_share, 0);
    assert_eq!(p.last_update_at, 7);
    assert_eq!(p.period_finish, 1000);
}

#[test]
fn add_pool_rejects_non_authority() {
    let g = genesis();
    let r = add_pool(&g, AccountId(99), AccountId(10), AccountId(11), 100, 1000, 0);
    assert_eq!(r, Err(GenesisError::Unauthorized));
}

#[test]
fn example_scenario_fifty_shares_ten_ticks() {
    // rate 100, period ends at 1000; fifty shares staked at t = 0 earn
    // 10 * 100 * PRECISION / 50 per share by t = 10, i.e. 1000 in total.
    let mut pool = fresh_pool(100, 1000, 0);
    let mut user = Depositor::new(AccountId(7));
    deposit(&mut pool, &mut user, 50, 0, true).unwrap();
    pool.update_rewards(&mut user, 10).unwrap();
    assert_eq!(pool.reward_per_share, 10 * 100 * PRECISION / 50);
    assert_eq!(user.rewards, 1000);
}

#[test]
fn deposit_emits_event_and_moves_balances() {
    let mut pool = fresh_pool(100, 1000, 0);
    let mut user = Depositor::new(AccountId(7));
    let ev = deposit(&mut pool, &mut user, 50, 0, true).unwrap();
    assert_eq!(ev.user, AccountId(7));
    assert_eq!(ev.pool, AccountId(10));
    assert_eq!(ev.amount, 50);
    assert_eq!(pool.total_shares, 50);
    assert_eq!(user.shares, 50);
}

#[test]
fn deposit_of_zero_is_rejected() {
    let mut pool = fresh_pool(100, 1000, 0);
    let mut user = Depositor::new(AccountId(7));
    let before = pool;
    assert_eq!(
        deposit(&mut pool, &mut user, 0, 0, true),
        Err(GenesisError::InvalidAmount)
    );
    assert_eq!(pool, before);
    assert_eq!(user, Depositor::new(AccountId(7)));
}

#[test]
fn deposit_fails_and_changes_nothing_when_transfer_fails() {
    let mut pool = fresh_pool(100, 1000, 0);
    let mut user = Depositor::new(AccountId(7));
    let before = pool;
    assert_eq!(
        deposit(&mut pool, &mut user, 50, 0, false),
        Err(GenesisError::TransferFailed)
    );
    assert_eq!(pool, before);
    assert_eq!(user.shares, 0);
}

#[test]
fn conservation_total_tracks_sum_of_shares() {
    // One pool, two depositors: after every transition the pool total equals
    // the sum of the depositors' shares, withdrawals included.
    let mut pool = fresh_pool(100, 1000, 0);
    let mut a = Depositor::new(AccountId(7));
    let mut b = Depositor::new(AccountId(8));
    deposit(&mut pool, &mut a, 50, 0, true).unwrap();
    assert_eq!(pool.total_shares, a.shares + b.shares);
    deposit(&mut pool, &mut b, 30, 2, true).unwrap();
    assert_eq!(pool.total_shares, a.shares + b.shares);
    withdraw(&mut pool, &mut a, 20, 5, true).unwrap();
    assert_eq!(pool.total_shares, a.shares + b.shares);
    assert_eq!(pool.total_shares, 60);
    withdraw(&mut pool, &mut b, 30, 9, true).unwrap();
    assert_eq!(pool.total_shares, a.shares + b.shares);
    assert_eq!(pool.total_shares, 30);
}

#[test]
fn withdraw_emits_event_and_rejects_excess() {
    let mut pool = fresh_pool(100, 1000, 0);
    let mut user = Depositor::new(AccountId(7));
    deposit(&mut pool, &mut user, 50, 0, true).unwrap();
    let ev = withdraw(&mut pool, &mut user, 20, 3, true).unwrap();
    assert_eq!(ev.user, AccountId(7));
    assert_eq!(ev.pool, AccountId(10));
    assert_eq!(ev.amount, 20);
    let pool_before = pool;
    let user_before = user;
    assert_eq!(
        withdraw(&mut pool, &mut user, 31, 3, true),
        Err(GenesisError::InsufficientStake)
    );
    assert_eq!(pool, pool_before);
    assert_eq!(user, user_before);
}

#[test]
fn withdraw_of_zero_is_rejected() {
    let mut pool = fresh_pool(100, 1000, 0);
    let mut user = Depositor::new(AccountId(7));
    deposit(&mut pool, &mut user, 50, 0, true).unwrap();
    assert_eq!(
        withdraw(&mut pool, &mut user, 0, 1, true),
        Err(GenesisError::InvalidAmount)
    );
}

#[test]
fn withdraw_fails_and_changes_nothing_when_transfer_fails() {
    let mut pool = fresh_pool(100, 1000, 0);
    let mut user = Depositor::new(AccountId(7));
    deposit(&mut pool, &mut user, 50, 0, true).unwrap();
    let pool_before = pool;
    let user_before = user;
    assert_eq!(
        withdraw(&mut pool, &mut user, 20, 4, false),
        Err(GenesisError::TransferFailed)
    );
    assert_eq!(pool, pool_before);
    assert_eq!(user, user_before);
}

#[test]
fn claim_pays_once_then_nothing() {
    let mut pool = fresh_pool(100, 1000, 0);
    let mut user = Depositor::new(AccountId(7));
    deposit(&mut pool, &mut user, 50, 0, true).unwrap();
    let (paid, ev) = claim_rewards(&mut pool, &mut user, 10, true).unwrap();
    assert_eq!(paid, 1000);
    let ev = ev.unwrap();
    assert_eq!(ev.user, AccountId(7));
    assert_eq!(ev.pool, AccountId(10));
    assert_eq!(ev.amount, 1000);
    // Immediately claiming again: no time elapsed, nothing new to pay, no
    // event, no state change.
    let pool_before = pool;
    let user_before = user;
    let (paid_again, ev_again) = claim_rewards(&mut pool, &mut user, 10, true).unwrap();
    assert_eq!(paid_again, 0);
    assert!(ev_again.is_none());
    assert_eq!(pool, pool_before);
    assert_eq!(user, user_before);
}

#[test]
fn claim_fails_and_changes_nothing_when_mint_fails() {
    let mut pool = fresh_pool(100, 1000, 0);
    let mut user = Depositor::new(AccountId(7));
    deposit(&mut pool, &mut user, 50, 0, true).unwrap();
    let pool_before = pool;
    let user_before = user;
    assert_eq!(
        claim_rewards(&mut pool, &mut user, 10, false),
        Err(GenesisError::MintFailed)
    );
    assert_eq!(pool, pool_before);
    assert_eq!(user, user_before);
    // The rewards are not lost: a later successful claim still pays them.
    let (paid, _) = claim_rewards(&mut pool, &mut user, 10, true).unwrap();
    assert_eq!(paid, 1000);
}

#[test]
fn accumulator_is_monotonic_across_settlements() {
    let mut pool = fresh_pool(100, 1000, 0);
    let mut user = Depositor::new(AccountId(7));
    deposit(&mut pool, &mut user, 7, 0, true).unwrap();
    let mut last = pool.reward_per_share;
    for now in [3u64, 3, 10, 500, 1000, 2000, 5000] {
        pool.update_rewards(&mut user, now).unwrap();
        assert!(pool.reward_per_share >= last);
        last = pool.reward_per_share;
    }
}

#[test]
fn no_accrual_past_period_end() {
    let mut pool = fresh_pool(100, 1000, 0);
    let mut user = Depositor::new(AccountId(7));
    deposit(&mut pool, &mut user, 50, 0, true).unwrap();
    pool.update_rewards(&mut user, 1500).unwrap();
    let first = user.rewards;
    // Emission stopped at 1000: rewards for the first thousand ticks only.
    assert_eq!(first, 1000 * 100);
    pool.update_rewards(&mut user, 2500).unwrap();
    assert_eq!(user.rewards, first);
    assert_eq!(pool.reward_per_share, 1000 * 100 * PRECISION / 50);
}

#[test]
fn zero_share_pool_pauses_instead_of_accruing() {
    let mut pool = fresh_pool(100, 1000, 0);
    let mut user = Depositor::new(AccountId(7));
    let before = pool;
    pool.update_rewards(&mut user, 400).unwrap();
    assert_eq!(pool, before);
    assert_eq!(user.shares, 0);
    assert_eq!(user.rewards, 0);
    // The checkpoint is synchronised to the (frozen) accumulator.
    assert_eq!(user.reward_paid_per_shares, pool.reward_per_share);
}

#[test]
fn no_retroactive_accrual_after_drain() {
    // Draining a pool leaves a nonzero frozen accumulator; a later deposit
    // must not earn anything for the history before it.
    let mut pool = fresh_pool(100, 1000, 0);
    let mut a = Depositor::new(AccountId(7));
    deposit(&mut pool, &mut a, 50, 0, true).unwrap();
    withdraw(&mut pool, &mut a, 50, 10, true).unwrap();
    assert_eq!(pool.total_shares, 0);
    assert_eq!(pool.reward_per_share, 10 * 100 * PRECISION / 50);
    // The drained depositor keeps what was earned up to the drain.
    assert_eq!(a.rewards, 1000);
    let mut b = Depositor::new(AccountId(8));
    deposit(&mut pool, &mut b, 50, 10, true).unwrap();
    // The settle pauses the pool but brings the fresh depositor's checkpoint
    // up to the frozen accumulator.
    assert_eq!(b.reward_paid_per_shares, pool.reward_per_share);
    // Claiming with no time staked pays nothing.
    let (paid, ev) = claim_rewards(&mut pool, &mut b, 10, true).unwrap();
    assert_eq!(paid, 0);
    assert!(ev.is_none());
    // The drained depositor's claim is untouched by any of this.
    let (paid_a, _) = claim_rewards(&mut pool, &mut a, 10, true).unwrap();
    assert_eq!(paid_a, 1000);
}

#[test]
fn checkpoint_measures_only_the_delta() {
    // A second depositor checkpointed at a nonzero accumulator value earns
    // only shares * (A1 - A0) / PRECISION, not the full history.
    let mut pool = fresh_pool(100, 1000, 0);
    let mut a = Depositor::new(AccountId(7));
    deposit(&mut pool, &mut a, 50, 0, true).unwrap();
    let mut b = Depositor::new(AccountId(8));
    deposit(&mut pool, &mut b, 50, 10, true).unwrap();
    let a0 = pool.reward_per_share;
    assert_eq!(a0, 10 * 100 * PRECISION / 50);
    assert_eq!(b.reward_paid_per_shares, a0);
    pool.update_rewards(&mut b, 20).unwrap();
    let a1 = pool.reward_per_share;
    assert_eq!(a1, a0 + 10 * 100 * PRECISION / 100);
    assert_eq!(b.rewards, 50 * (a1 - a0) / PRECISION);
    assert_eq!(b.rewards, 500);
}

#[test]
fn overflowing_accrual_is_reported_not_wrapped() {
    let g = genesis();
    let mut pool = add_pool(
        &g,
        AccountId(1),
        AccountId(10),
        AccountId(11),
        u64::MAX,
        u64::MAX,
        0,
    )
    .unwrap();
    let mut user = Depositor::new(AccountId(7));
    deposit(&mut pool, &mut user, 1, 0, true).unwrap();
    let pool_before = pool;
    let user_before = user;
    assert_eq!(
        pool.update_rewards(&mut user, u64::MAX),
        Err(GenesisError::Overflow)
    );
    assert_eq!(pool, pool_before);
    assert_eq!(user, user_before);
    assert_eq!(
        deposit(&mut pool, &mut user, 1, u64::MAX, true),
        Err(GenesisError::Overflow)
    );
    assert_eq!(pool, pool_before);
    assert_eq!(user, user_before);
}

#[test]
fn earnings_round_down_never_up() {
    // Three shares against an accumulator delta that does not divide evenly:
    // 3 * delta / PRECISION truncates.
    let mut pool = fresh_pool(1, 1000, 0);
    let mut user = Depositor::new(AccountId(7));
    deposit(&mut pool, &mut user, 3, 0, true).unwrap();
    pool.update_rewards(&mut user, 2).unwrap();
    // Accumulator: 2 * 1 * PRECISION / 3 = 666_666_666; earned:
    // 3 * 666_666_666 / PRECISION = 1 (truncated from 1.999...).
    assert_eq!(pool.reward_per_share, 666_666_666);
    assert_eq!(user.rewards, 1);
}
