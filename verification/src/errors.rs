use vstd::prelude::*;

verus! {

/// Failure taxonomy of the pool core.
///
/// Every public operation reports failures as one of these typed values and
/// aborts cleanly: nothing is retried, truncated, or silently defaulted.
#[derive(Clone, Copy, Debug, PartialEq, Eq, Structural)]
pub enum AmmError {
    /// A parameter is out of range (a fee above 10000 basis points, or a
    /// lock request from a caller that is not the pool's authority).
    InvalidParameter,
    /// The pool is locked; deposit and swap are rejected.
    PoolLocked,
    /// Overflow or division by zero in the curve arithmetic.
    ArithmeticError,
    /// A computed amount violates the caller-supplied slippage bound.
    SlippageExceeded,
    /// A pool with the same seed already exists (reported by the ledger
    /// layer on a creation collision).
    AlreadyExists,
    /// A requested token transfer cannot be performed.
    TransferFailed,
    /// A requested share mint cannot be performed (reported by the ledger
    /// layer).
    MintFailed,
    /// A requested share burn cannot be performed.
    BurnFailed,
}

} // verus!
