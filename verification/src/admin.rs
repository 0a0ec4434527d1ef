//! The administrator registry: the one account that may mint, claw back,
//! freeze accounts and name its successor.

use crate::account::AccountId;
use crate::error::TokenError;
use vstd::prelude::*;

verus! {

/// The administrator of the token, once there is one.
#[derive(Debug)]
pub struct AdminRegistry {
    admin: Option<AccountId>,
}

impl View for AdminRegistry {
    type V = Option<AccountId>;

    /// The administrator, or `None` before the token is initialized.
    closed spec fn view(&self) -> Option<AccountId> {
        self.admin
    }
}

/// The outcome of asking the registry `admin` for its administrator.
pub open spec fn read_admin(admin: Option<AccountId>) -> Result<AccountId, TokenError> {
    match admin {
        Some(account) => Ok(account),
        None => Err(TokenError::Uninitialized),
    }
}

/// The outcome of testing `candidate` against the registry `admin`.
pub open spec fn check_admin(admin: Option<AccountId>, candidate: AccountId) -> Result<
    (),
    TokenError,
> {
    match admin {
        None => Err(TokenError::Uninitialized),
        Some(account) => if account == candidate {
            Ok(())
        } else {
            Err(TokenError::NotAdmin)
        },
    }
}

impl AdminRegistry {
    /// A registry without an administrator.
    pub fn new() -> (registry: AdminRegistry)
        ensures
            registry@ is None,
    {
        AdminRegistry { admin: None }
    }

    /// Whether an administrator has been set.
    pub fn has_administrator(&self) -> (set: bool)
        ensures
            set == (self@ is Some),
    {
        self.admin.is_some()
    }

    /// Sets the first administrator.
    ///
    /// Fails with `AlreadyInitialized`, and changes nothing, if there is one
    /// already.
    pub fn initialize(&mut self, admin: AccountId) -> (result: Result<(), TokenError>)
        ensures
            old(self)@ is None ==> result is Ok && final(self)@ == Some(admin),
            old(self)@ is Some ==> result == Err::<(), TokenError>(TokenError::AlreadyInitialized)
                && *final(self) == *old(self),
    {
        if self.admin.is_some() {
            return Err(TokenError::AlreadyInitialized);
        }
        self.admin = Some(admin);
        Ok(())
    }

    /// The administrator. Fails with `Uninitialized` if none was ever set.
    pub fn read(&self) -> (result: Result<AccountId, TokenError>)
        ensures
            result == read_admin(self@),
    {
        match self.admin {
            Some(account) => Ok(account),
            None => Err(TokenError::Uninitialized),
        }
    }

    /// Passes if `candidate` is the administrator.
    ///
    /// Fails with `Uninitialized` if none was ever set, else with `NotAdmin`
    /// if the administrator is another account.
    pub fn check(&self, candidate: AccountId) -> (result: Result<(), TokenError>)
        ensures
            result == check_admin(self@, candidate),
    {
        match self.admin {
            None => Err(TokenError::Uninitialized),
            Some(account) => if account == candidate {
                Ok(())
            } else {
                Err(TokenError::NotAdmin)
            },
        }
    }

    /// Makes `new_admin` the administrator, whoever was before. That the
    /// caller may do so is for the caller to have checked.
    pub fn rotate(&mut self, new_admin: AccountId)
        ensures
            final(self)@ == Some(new_admin),
    {
        self.admin = Some(new_admin);
    }
}

} // verus!
