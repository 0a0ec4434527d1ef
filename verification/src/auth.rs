//! Who has authorized a call.
//!
//! Whether an account really stands behind a call is for the host to find
//! out. What it has found is handed to the ledger as an `Authorization`: the
//! accounts whose consent to this call the host has confirmed.

use crate::account::AccountId;
use crate::error::TokenError;
use vstd::prelude::*;

verus! {

/// The accounts that have authorized the call at hand.
#[derive(Debug)]
pub struct Authorization {
    signers: Vec<AccountId>,
}

impl View for Authorization {
    type V = Set<AccountId>;

    /// The set of accounts that have authorized the call.
    closed spec fn view(&self) -> Set<AccountId> {
        self.signers@.to_set()
    }
}

impl Authorization {
    /// The authorization of a call that no account stands behind.
    pub fn none() -> (authorization: Authorization)
        ensures
            authorization@ == Set::<AccountId>::empty(),
    {
        Authorization { signers: Vec::new() }
    }

    /// The authorization of a call that `account`, and no other, stands
    /// behind.
    pub fn of(account: AccountId) -> (authorization: Authorization)
        ensures
            authorization@ == Set::<AccountId>::empty().insert(account),
    {
        let mut authorization = Authorization::none();
        authorization.grant(account);
        authorization
    }

    /// Adds `account` to those that stand behind the call.
    pub fn grant(&mut self, account: AccountId)
        ensures
            final(self)@ == old(self)@.insert(account),
    {
        self.signers.push(account);
        proof {
            let before = old(self).signers@;
            let after = self.signers@;
            assert(after[before.len() as int] == account);
            assert forall|a: AccountId| after.to_set().contains(a) <==> before.to_set().insert(
                account,
            ).contains(a) by {
                if before.contains(a) {
                    let i = before.index_of(a);
                    assert(after[i] == a);
                }
            }
        }
    }

    /// Whether `account` has authorized the call.
    pub fn permits(&self, account: AccountId) -> (permitted: bool)
        ensures
            permitted == self@.contains(account),
    {
        let mut i: usize = 0;
        while i < self.signers.len()
            invariant
                i <= self.signers@.len(),
                forall|j: int| 0 <= j < i ==> self.signers@[j] != account,
            decreases self.signers@.len() - i,
        {
            if self.signers[i] == account {
                return true;
            }
            i += 1;
        }
        false
    }

    /// Passes if `account` has authorized the call, and fails with
    /// `NotAuthorized` if it has not.
    pub fn require(&self, account: AccountId) -> (result: Result<(), TokenError>)
        ensures
            result == authorized_by(self@, account),
    {
        if self.permits(account) {
            Ok(())
        } else {
            Err(TokenError::NotAuthorized)
        }
    }
}

/// The outcome of asking whether `account` is among the `signers` of a call.
pub open spec fn authorized_by(signers: Set<AccountId>, account: AccountId) -> Result<
    (),
    TokenError,
> {
    if signers.contains(account) {
        Ok(())
    } else {
        Err(TokenError::NotAuthorized)
    }
}

} // verus!
