use vstd::prelude::*;

verus! {

/// The closed set of reasons an operation can be rejected.
///
/// Every error is returned as a value; a rejected operation leaves the
/// ledger byte-for-byte unchanged.
#[derive(Clone, Copy, Debug, PartialEq, Eq, Structural)]
pub enum Error {
    /// Trying to spend more tokens than the account holds.
    InsufficientBalance,
    /// Only the administrator may perform this operation.
    Unauthorized,
    /// Zero-amount operations are rejected.
    InvalidAmount,
    /// Checked arithmetic would exceed the representable range.
    Overflow,
    /// The spender's allowance does not cover the requested amount.
    InsufficientAllowance,
    /// The ledger is currently paused.
    ContractPaused,
    /// A participating account is blacklisted.
    AccountBlacklisted,
}

} // verus!
