use vstd::prelude::*;

verus! {

/// Everything a staking transition can fail with. Each failure leaves the
/// pool and depositor records exactly as they were: a transition either
/// commits all of its effects or none of them.
#[derive(Clone, Copy, Debug, PartialEq, Eq, Structural)]
pub enum GenesisError {
    /// The caller is not the configured global authority.
    Unauthorized,
    /// A withdrawal asked for more than the depositor's recorded shares.
    InsufficientStake,
    /// The custodial asset-transfer collaborator reported failure.
    TransferFailed,
    /// The reward-mint collaborator reported failure.
    MintFailed,
    /// A zero quantity was supplied where a positive one is required.
    InvalidAmount,
    /// The accrual arithmetic would exceed the 64-bit ledger representation.
    Overflow,
}

} // verus!
