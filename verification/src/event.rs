//! The records that the ledger hands out for the host to publish.

use crate::account::AccountId;
use vstd::prelude::*;

verus! {

/// What a successful state-changing operation reports.
///
/// The ledger only says what happened: publishing the record is the work of
/// whoever called the operation.
#[derive(Clone, Copy, Debug, PartialEq, Eq, Structural)]
pub enum Event {
    /// `from` raised the allowance of `spender` by `amount`.
    IncrAllow { from: AccountId, spender: AccountId, amount: i128 },
    /// `from` lowered the allowance of `spender` by `amount`.
    DecrAllow { from: AccountId, spender: AccountId, amount: i128 },
    /// `amount` moved from `from` to `to`.
    Transfer { from: AccountId, to: AccountId, amount: i128 },
    /// `amount` of what `from` owned was destroyed.
    Burn { from: AccountId, amount: i128 },
    /// The administrator destroyed `amount` of what `from` owned.
    Clawback { admin: AccountId, from: AccountId, amount: i128 },
    /// The administrator authorized or deauthorized `id`.
    SetAuth { admin: AccountId, id: AccountId, authorize: bool },
    /// The administrator created `amount` for `to`.
    Mint { admin: AccountId, to: AccountId, amount: i128 },
    /// The administrator handed its office to `new_admin`.
    SetAdmin { admin: AccountId, new_admin: AccountId },
}

} // verus!
