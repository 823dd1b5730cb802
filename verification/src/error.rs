//! The reasons for which the pool turns an operation down.

use vstd::prelude::*;

verus! {

/// Why a pool operation was rejected. An operation that is rejected changes
/// nothing.
#[derive(Clone, Copy, Debug, PartialEq, Eq, Structural)]
pub enum AmmError {
    /// The pool is administratively paused.
    PoolLocked,
    /// An amount is zero, out of range, or too small to register.
    InvalidAmount,
    /// The computed amounts violate the bounds that the caller gave.
    SlippageExceeded,
    /// Arithmetic overflow, division by zero, or a violated pool invariant.
    CurveError,
}

impl AmmError {
    /// The text that describes the error to a caller.
    pub open spec fn text(self) -> Seq<char> {
        match self {
            AmmError::PoolLocked => "Pool is locked for operations"@,
            AmmError::InvalidAmount => "Invalid amount provided"@,
            AmmError::SlippageExceeded => "Slippage tolerance exceeded"@,
            AmmError::CurveError => "Curve calculation error"@,
        }
    }

    /// The text that describes the error to a caller.
    pub fn message(&self) -> (text: &'static str)
        ensures
            text@ == self.text(),
    {
        match self {
            AmmError::PoolLocked => "Pool is locked for operations",
            AmmError::InvalidAmount => "Invalid amount provided",
            AmmError::SlippageExceeded => "Slippage tolerance exceeded",
            AmmError::CurveError => "Curve calculation error",
        }
    }
}

/// Why an administrative operation was rejected.
#[derive(Clone, Copy, Debug, PartialEq, Eq, Structural)]
pub enum AuthError {
    /// The caller is not the pool's authority, or the pool has none.
    Unauthorized,
}

} // verus!
