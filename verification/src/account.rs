//! Account identities.

use vstd::prelude::*;

verus! {

/// The identity of an account.
///
/// The ledger never looks inside an identity: it only tells two of them
/// apart. Two identities are the same account exactly when their numbers are
/// equal.
#[derive(Clone, Copy, Debug, PartialEq, Eq, Structural, Hash)]
pub struct AccountId {
    pub id: u64,
}

impl AccountId {
    /// The account with the number `id`.
    pub fn new(id: u64) -> (account: AccountId)
        ensures
            account.id == id,
    {
        AccountId { id }
    }

    /// The number that identifies this account.
    pub fn raw(&self) -> (id: u64)
        ensures
            id == self.id,
    {
        self.id
    }
}

} // verus!
