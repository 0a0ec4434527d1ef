//! The ways in which an operation on the ledger can fail.

use vstd::prelude::*;

verus! {

/// Why an operation was refused. A refused operation leaves the ledger as it
/// found it.
#[derive(Clone, Copy, Debug, PartialEq, Eq, Structural)]
pub enum TokenError {
    /// The token has no administrator yet.
    Uninitialized,
    /// The token already has an administrator.
    AlreadyInitialized,
    /// An amount below zero was given.
    NegativeAmount,
    /// A balance or an allowance would leave the range of `i128`.
    Overflow,
    /// The account holds less than the amount to take from it.
    InsufficientBalance,
    /// The spender may spend less than the amount asked for.
    InsufficientAllowance,
    /// The account named as administrator is not the administrator.
    NotAdmin,
    /// The acting account has not authorized the call, or an account that
    /// would send or receive value is deauthorized.
    NotAuthorized,
    /// The number of decimals does not fit in a `u8`.
    InvalidMetadata,
}

} // verus!
