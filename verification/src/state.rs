//! The token as a state machine over mathematical values.
//!
//! A `TokenState` is what a token holds; each operation of the token is a
//! function from the state before it to either the state after it and the
//! event to publish, or the reason why it was refused. A refused operation
//! has no state after it: the state stays what it was.
//!
//! Every operation tests its conditions in one order: first that the acting
//! account authorized the call, then that the amount is not negative, then
//! that the token is initialized and, where the operation is the
//! administrator's, that the acting account is the administrator, and last
//! what the ledgers themselves ask for. The first test that fails names the
//! error.

use crate::account::AccountId;
use crate::admin::check_admin;
use crate::allowance::Allowances;
use crate::error::TokenError;
use crate::event::Event;
use crate::holdings::Balances;
use crate::metadata::MetadataView;
use vstd::prelude::*;

verus! {

/// Everything a token holds.
#[verifier::ext_equal]
pub struct TokenState {
    /// The administrator, or `None` while the token is uninitialized.
    pub admin: Option<AccountId>,
    /// The number of decimals, the name and the symbol.
    pub metadata: MetadataView,
    /// What each account owns and whether it is authorized.
    pub balances: Balances,
    /// What each spender may spend of each owner's balance.
    pub allowances: Allowances,
}

/// The outcome of passing the amount `amount` to an operation.
pub open spec fn nonnegative(amount: i128) -> Result<(), TokenError> {
    if amount < 0 {
        Err(TokenError::NegativeAmount)
    } else {
        Ok(())
    }
}

impl TokenState {
    /// The uninitialized token: no administrator, no metadata, no balance
    /// and no allowance.
    pub open spec fn empty() -> TokenState {
        TokenState {
            admin: None,
            metadata: MetadataView::unset(),
            balances: Balances::empty(),
            allowances: Allowances::empty(),
        }
    }

    /// Every balance and every allowance is a non-negative `i128`, and
    /// finitely many accounts have a balance on record.
    pub open spec fn valid(self) -> bool {
        self.balances.valid() && self.allowances.valid()
    }

    /// The sum of the balances of all accounts.
    pub open spec fn total_supply(self) -> int {
        self.balances.total_supply()
    }

    /// Whether the token is initialized; `Uninitialized` if it is not.
    pub open spec fn active(self) -> Result<(), TokenError> {
        if self.admin is Some {
            Ok(())
        } else {
            Err(TokenError::Uninitialized)
        }
    }

    /// The tests that every operation of an account makes before it looks
    /// at the ledgers: that `actor` is among the `signers`, that `amount` is
    /// not negative, and that the token is initialized. An operation without
    /// an amount passes zero.
    pub open spec fn admits(
        self,
        signers: Set<AccountId>,
        actor: AccountId,
        amount: i128,
    ) -> Result<(), TokenError> {
        if !signers.contains(actor) {
            Err(TokenError::NotAuthorized)
        } else if amount < 0 {
            Err(TokenError::NegativeAmount)
        } else if self.admin is None {
            Err(TokenError::Uninitialized)
        } else {
            Ok(())
        }
    }

    /// The tests that every operation of the administrator makes before it
    /// looks at the ledgers: those of `admits`, and then that `admin` is the
    /// administrator.
    pub open spec fn admits_admin(
        self,
        signers: Set<AccountId>,
        admin: AccountId,
        amount: i128,
    ) -> Result<(), TokenError> {
        match self.admits(signers, admin, amount) {
            Err(e) => Err(e),
            Ok(_) => check_admin(self.admin, admin),
        }
    }

    /// Setting the administrator and the metadata of an uninitialized token.
    ///
    /// Refused with `AlreadyInitialized` when the token has an
    /// administrator, else with `InvalidMetadata` when `decimal` does not
    /// fit in a `u8`.
    pub open spec fn initialize(
        self,
        admin: AccountId,
        decimal: u32,
        name: Seq<u8>,
        symbol: Seq<u8>,
    ) -> Result<TokenState, TokenError> {
        if self.admin is Some {
            Err(TokenError::AlreadyInitialized)
        } else {
            match MetadataView::checked(decimal, name, symbol) {
                Ok(metadata) => Ok(TokenState { admin: Some(admin), metadata, ..self }),
                Err(e) => Err(e),
            }
        }
    }

    /// `from` raises the allowance of `spender` by `amount`.
    pub open spec fn incr_allow(
        self,
        signers: Set<AccountId>,
        from: AccountId,
        spender: AccountId,
        amount: i128,
    ) -> Result<(TokenState, Event), TokenError> {
        match self.admits(signers, from, amount) {
            Err(e) => Err(e),
            Ok(_) => match self.allowances.increase(from, spender, amount as int) {
                Err(e) => Err(e),
                Ok(allowances) => Ok(
                    (TokenState { allowances, ..self }, Event::IncrAllow { from, spender, amount }),
                ),
            },
        }
    }

    /// `from` lowers the allowance of `spender` by `amount`, but not below
    /// zero.
    pub open spec fn decr_allow(
        self,
        signers: Set<AccountId>,
        from: AccountId,
        spender: AccountId,
        amount: i128,
    ) -> Result<(TokenState, Event), TokenError> {
        match self.admits(signers, from, amount) {
            Err(e) => Err(e),
            Ok(_) => Ok(
                (
                    TokenState {
                        allowances: self.allowances.decrease(from, spender, amount as int),
                        ..self
                    },
                    Event::DecrAllow { from, spender, amount },
                ),
            ),
        }
    }

    /// `amount` moves from `from` to `to`. No account has to authorize it.
    pub open spec fn transfer(self, from: AccountId, to: AccountId, amount: i128) -> Result<
        (TokenState, Event),
        TokenError,
    > {
        if amount < 0 {
            Err(TokenError::NegativeAmount)
        } else if self.admin is None {
            Err(TokenError::Uninitialized)
        } else {
            match self.balances.transfer(from, to, amount as int) {
                Err(e) => Err(e),
                Ok(balances) => Ok(
                    (TokenState { balances, ..self }, Event::Transfer { from, to, amount }),
                ),
            }
        }
    }

    /// `spender` moves `amount` from `from` to `to` and uses up as much of
    /// its allowance on `from`.
    pub open spec fn transfer_from(
        self,
        signers: Set<AccountId>,
        spender: AccountId,
        from: AccountId,
        to: AccountId,
        amount: i128,
    ) -> Result<(TokenState, Event), TokenError> {
        match self.admits(signers, spender, amount) {
            Err(e) => Err(e),
            Ok(_) => match self.allowances.spend(from, spender, amount as int) {
                Err(e) => Err(e),
                Ok(allowances) => match self.balances.transfer(from, to, amount as int) {
                    Err(e) => Err(e),
                    Ok(balances) => Ok(
                        (
                            TokenState { allowances, balances, ..self },
                            Event::Transfer { from, to, amount },
                        ),
                    ),
                },
            },
        }
    }

    /// `from` destroys `amount` of what it owns.
    pub open spec fn burn(self, signers: Set<AccountId>, from: AccountId, amount: i128) -> Result<
        (TokenState, Event),
        TokenError,
    > {
        match self.admits(signers, from, amount) {
            Err(e) => Err(e),
            Ok(_) => match self.balances.debit(from, amount as int) {
                Err(e) => Err(e),
                Ok(balances) => Ok((TokenState { balances, ..self }, Event::Burn { from, amount })),
            },
        }
    }

    /// `spender` destroys `amount` of what `from` owns and uses up as much
    /// of its allowance on `from`.
    pub open spec fn burn_from(
        self,
        signers: Set<AccountId>,
        spender: AccountId,
        from: AccountId,
        amount: i128,
    ) -> Result<(TokenState, Event), TokenError> {
        match self.admits(signers, spender, amount) {
            Err(e) => Err(e),
            Ok(_) => match self.allowances.spend(from, spender, amount as int) {
                Err(e) => Err(e),
                Ok(allowances) => match self.balances.debit(from, amount as int) {
                    Err(e) => Err(e),
                    Ok(balances) => Ok(
                        (TokenState { allowances, balances, ..self }, Event::Burn { from, amount }),
                    ),
                },
            },
        }
    }

    /// The administrator destroys `amount` of what `from` owns. No
    /// allowance is needed or used up.
    pub open spec fn clawback(
        self,
        signers: Set<AccountId>,
        admin: AccountId,
        from: AccountId,
        amount: i128,
    ) -> Result<(TokenState, Event), TokenError> {
        match self.admits_admin(signers, admin, amount) {
            Err(e) => Err(e),
            Ok(_) => match self.balances.debit(from, amount as int) {
                Err(e) => Err(e),
                Ok(balances) => Ok(
                    (TokenState { balances, ..self }, Event::Clawback { admin, from, amount }),
                ),
            },
        }
    }

    /// The administrator authorizes or deauthorizes `id`.
    pub open spec fn set_auth(
        self,
        signers: Set<AccountId>,
        admin: AccountId,
        id: AccountId,
        authorize: bool,
    ) -> Result<(TokenState, Event), TokenError> {
        match self.admits_admin(signers, admin, 0) {
            Err(e) => Err(e),
            Ok(_) => Ok(
                (
                    TokenState { balances: self.balances.with_authorized(id, authorize), ..self },
                    Event::SetAuth { admin, id, authorize },
                ),
            ),
        }
    }

    /// The administrator creates `amount` for `to`.
    pub open spec fn mint(
        self,
        signers: Set<AccountId>,
        admin: AccountId,
        to: AccountId,
        amount: i128,
    ) -> Result<(TokenState, Event), TokenError> {
        match self.admits_admin(signers, admin, amount) {
            Err(e) => Err(e),
            Ok(_) => match self.balances.credit(to, amount as int) {
                Err(e) => Err(e),
                Ok(balances) => Ok(
                    (TokenState { balances, ..self }, Event::Mint { admin, to, amount }),
                ),
            },
        }
    }

    /// The administrator makes `new_admin` the administrator.
    pub open spec fn set_admin(
        self,
        signers: Set<AccountId>,
        admin: AccountId,
        new_admin: AccountId,
    ) -> Result<(TokenState, Event), TokenError> {
        match self.admits_admin(signers, admin, 0) {
            Err(e) => Err(e),
            Ok(_) => Ok(
                (
                    TokenState { admin: Some(new_admin), ..self },
                    Event::SetAdmin { admin, new_admin },
                ),
            ),
        }
    }
}

} // verus!
