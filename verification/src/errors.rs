//! Typed, named failures. Nothing is retried internally: every failure is
//! surfaced to the caller, and the failed operation leaves every account
//! exactly as it was.

use vstd::prelude::*;

verus! {

/// Failures of the escrow engine.
#[derive(Clone, Copy, PartialEq, Eq, Structural, Debug)]
pub enum EscrowError {
    /// A zero deposit or a zero demand: nothing to custody or nothing owed.
    InvalidAmount,
    /// A record or vault already sits at the derived address.
    AlreadyExists,
    /// The escrow record (or its vault) no longer exists; a resolved escrow
    /// cannot be re-targeted.
    EscrowNotFound,
    /// A presented account does not stand in the declared relationship to the
    /// others (wrong mint, wrong owner, wrong derivation).
    AccountMismatch,
    /// The caller is not the identity the operation demands.
    Unauthorized,
    /// A paying account holds less than the transfer needs.
    InsufficientFunds,
    /// A receiving balance would exceed the representable range.
    Overflow,
}

/// Failures of the pool engine's swap.
#[derive(Clone, Copy, PartialEq, Eq, Structural, Debug)]
pub enum AmmError {
    /// A presented account does not stand in the declared relationship to the
    /// others (wrong mint, wrong owner, wrong derivation).
    AccountMismatch,
    /// The circuit breaker is engaged; swaps are disabled.
    PoolLocked,
    /// A non-positive input amount.
    InvalidAmount,
    /// The curve cannot be evaluated: degenerate reserves or a fee over the
    /// whole basis-point scale.
    CurveError,
    /// The curve-computed output is zero or below the caller's floor.
    SlippageExceeded,
    /// The user's input account holds less than the deposit leg needs.
    InsufficientFunds,
    /// A receiving balance would exceed the representable range.
    Overflow,
}

} // verus!
