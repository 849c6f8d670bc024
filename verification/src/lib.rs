//! A shared-ledger staking library.
//!
//! Users deposit an underlying asset into a pool, accrue rewards in proportion
//! to their share of the pool over time, and later withdraw principal or claim
//! accrued rewards. Accrual uses a Synthetix-style reward-per-share
//! accumulator: one global, monotonically non-decreasing counter per pool,
//! against which every depositor keeps a private checkpoint, so per-user
//! accounting stays O(1) no matter how long the staking history grows.
//!
//! The surrounding execution environment owns the clock, the custodial asset
//! transfers and the reward mint; the transitions here take the clock reading
//! and the collaborators' success reports as plain arguments and are verified
//! for every value of them.

pub mod errors;
pub mod events;
pub mod instructions;
pub mod laws;
pub mod pool;
pub mod state;
