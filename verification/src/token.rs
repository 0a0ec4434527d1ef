//! The token: the operations that callers see, each composed of the
//! administrator registry, the metadata store and the two ledgers.
//!
//! Every operation that changes the token tests all its conditions before it
//! writes anything, so a refused operation leaves the token exactly as it
//! was. A successful one returns the event for the host to publish.

use crate::account::AccountId;
use crate::admin::AdminRegistry;
use crate::allowance::AllowanceLedger;
use crate::auth::Authorization;
use crate::balance::BalanceLedger;
use crate::error::TokenError;
use crate::event::Event;
use crate::metadata::Metadata;
use crate::state::{nonnegative, TokenState};
use vstd::prelude::*;

verus! {

/// Passes if `amount` is zero or more, and fails with `NegativeAmount` if it
/// is below zero.
pub fn check_nonnegative_amount(amount: i128) -> (result: Result<(), TokenError>)
    ensures
        result == nonnegative(amount),
{
    if amount < 0 {
        Err(TokenError::NegativeAmount)
    } else {
        Ok(())
    }
}

/// The operations of a fungible token.
///
/// Each operation is held to the state machine of `TokenState`: it returns
/// what the state machine says, leaves the token in the state that the
/// state machine says, and leaves it untouched when it is refused.
pub trait TokenTrait: Sized {
    /// What the token holds.
    spec fn state(&self) -> TokenState;

    /// Whether the token's own records are in order.
    spec fn wf(&self) -> bool;

    /// A token whose records are in order holds a valid state.
    proof fn lemma_valid(&self)
        requires
            self.wf(),
        ensures
            self.state().valid(),
    ;

    /// Makes `admin` the administrator and records the metadata.
    ///
    /// Fails with `AlreadyInitialized` if the token has an administrator,
    /// else with `InvalidMetadata` if `decimal` does not fit in a `u8`.
    fn initialize(
        &mut self,
        admin: AccountId,
        decimal: u32,
        name: Vec<u8>,
        symbol: Vec<u8>,
    ) -> (result: Result<(), TokenError>)
        requires
            old(self).wf(),
        ensures
            final(self).wf(),
            match old(self).state().initialize(admin, decimal, name@, symbol@) {
                Ok(after) => result is Ok && final(self).state() == after,
                Err(e) => result == Err::<(), TokenError>(e) && *final(self) == *old(self),
            },
    ;

    /// The amount that `spender` may still spend of what `from` owns.
    ///
    /// Fails with `Uninitialized` while the token has no administrator.
    fn allowance(&self, from: AccountId, spender: AccountId) -> (result: Result<
        i128,
        TokenError,
    >)
        requires
            self.wf(),
        ensures
            match self.state().active() {
                Ok(_) => result is Ok && result->Ok_0 == self.state().allowances.allowance_of(
                    from,
                    spender,
                ) && result->Ok_0 >= 0,
                Err(e) => result == Err::<i128, TokenError>(e),
            },
    ;

    /// Raises the allowance of `spender` on what `from` owns by `amount`.
    ///
    /// Fails with `NotAuthorized` if `from` has not authorized the call,
    /// else with `NegativeAmount`, else with `Uninitialized`, else with
    /// `Overflow` if the allowance would not fit in an `i128`.
    fn incr_allow(
        &mut self,
        authorization: &Authorization,
        from: AccountId,
        spender: AccountId,
        amount: i128,
    ) -> (result: Result<Event, TokenError>)
        requires
            old(self).wf(),
        ensures
            final(self).wf(),
            match old(self).state().incr_allow(authorization@, from, spender, amount) {
                Ok((after, event)) => {
                    &&& result == Ok::<Event, TokenError>(event)
                    &&& final(self).state() == after
                },
                Err(e) => {
                    &&& result == Err::<Event, TokenError>(e)
                    &&& *final(self) == *old(self)
                },
            },
    ;

    /// Lowers the allowance of `spender` on what `from` owns by `amount`; an
    /// amount that is not below the allowance leaves the allowance zero.
    ///
    /// Fails with `NotAuthorized` if `from` has not authorized the call,
    /// else with `NegativeAmount`, else with `Uninitialized`.
    fn decr_allow(
        &mut self,
        authorization: &Authorization,
        from: AccountId,
        spender: AccountId,
        amount: i128,
    ) -> (result: Result<Event, TokenError>)
        requires
            old(self).wf(),
        ensures
            final(self).wf(),
            match old(self).state().decr_allow(authorization@, from, spender, amount) {
                Ok((after, event)) => {
                    &&& result == Ok::<Event, TokenError>(event)
                    &&& final(self).state() == after
                },
                Err(e) => {
                    &&& result == Err::<Event, TokenError>(e)
                    &&& *final(self) == *old(self)
                },
            },
    ;

    /// The amount that `id` owns.
    ///
    /// Fails with `Uninitialized` while the token has no administrator.
    fn balance(&self, id: AccountId) -> (result: Result<i128, TokenError>)
        requires
            self.wf(),
        ensures
            match self.state().active() {
                Ok(_) => result is Ok && result->Ok_0 == self.state().balances.balance_of(id)
                    && result->Ok_0 >= 0,
                Err(e) => result == Err::<i128, TokenError>(e),
            },
    ;

    /// The amount that `id` can spend: all that it owns, since the token
    /// sets nothing aside.
    ///
    /// Fails with `Uninitialized` while the token has no administrator.
    fn spendable(&self, id: AccountId) -> (result: Result<i128, TokenError>)
        requires
            self.wf(),
        ensures
            match self.state().active() {
                Ok(_) => result is Ok && result->Ok_0 == self.state().balances.balance_of(id)
                    && result->Ok_0 >= 0,
                Err(e) => result == Err::<i128, TokenError>(e),
            },
    ;

    /// Whether `id` may send and receive value.
    ///
    /// Fails with `Uninitialized` while the token has no administrator.
    fn authorized(&self, id: AccountId) -> (result: Result<bool, TokenError>)
        requires
            self.wf(),
        ensures
            match self.state().active() {
                Ok(_) => result == Ok::<bool, TokenError>(self.state().balances.is_authorized(id)),
                Err(e) => result == Err::<bool, TokenError>(e),
            },
    ;

    /// Moves `amount` from `from` to `to`. The call needs nobody's
    /// authorization.
    ///
    /// Fails with `NegativeAmount`, else with `Uninitialized`, else with
    /// `NotAuthorized` if `from` is deauthorized, else with
    /// `InsufficientBalance`, else with `NotAuthorized` if `to` is
    /// deauthorized, else with `Overflow` if the balance of `to` would not
    /// fit in an `i128`.
    fn transfer(&mut self, from: AccountId, to: AccountId, amount: i128) -> (result: Result<
        Event,
        TokenError,
    >)
        requires
            old(self).wf(),
        ensures
            final(self).wf(),
            match old(self).state().transfer(from, to, amount) {
                Ok((after, event)) => {
                    &&& result == Ok::<Event, TokenError>(event)
                    &&& final(self).state() == after
                },
                Err(e) => {
                    &&& result == Err::<Event, TokenError>(e)
                    &&& *final(self) == *old(self)
                },
            },
    ;

    /// Moves `amount` from `from` to `to` on behalf of `spender`, whose
    /// allowance on `from` shrinks by `amount`.
    ///
    /// Fails with `NotAuthorized` if `spender` has not authorized the call,
    /// else with `NegativeAmount`, else with `Uninitialized`, else with
    /// `InsufficientAllowance`, else as `transfer` does.
    fn transfer_from(
        &mut self,
        authorization: &Authorization,
        spender: AccountId,
        from: AccountId,
        to: AccountId,
        amount: i128,
    ) -> (result: Result<Event, TokenError>)
        requires
            old(self).wf(),
        ensures
            final(self).wf(),
            match old(self).state().transfer_from(authorization@, spender, from, to, amount) {
                Ok((after, event)) => {
                    &&& result == Ok::<Event, TokenError>(event)
                    &&& final(self).state() == after
                },
                Err(e) => {
                    &&& result == Err::<Event, TokenError>(e)
                    &&& *final(self) == *old(self)
                },
            },
    ;

    /// Destroys `amount` of what `from` owns.
    ///
    /// Fails with `NotAuthorized` if `from` has not authorized the call,
    /// else with `NegativeAmount`, else with `Uninitialized`, else with
    /// `NotAuthorized` if `from` is deauthorized, else with
    /// `InsufficientBalance`.
    fn burn(&mut self, authorization: &Authorization, from: AccountId, amount: i128) -> (result:
        Result<Event, TokenError>)
        requires
            old(self).wf(),
        ensures
            final(self).wf(),
            match old(self).state().burn(authorization@, from, amount) {
                Ok((after, event)) => {
                    &&& result == Ok::<Event, TokenError>(event)
                    &&& final(self).state() == after
                },
                Err(e) => {
                    &&& result == Err::<Event, TokenError>(e)
                    &&& *final(self) == *old(self)
                },
            },
    ;

    /// Destroys `amount` of what `from` owns on behalf of `spender`, whose
    /// allowance on `from` shrinks by `amount`.
    ///
    /// Fails with `NotAuthorized` if `spender` has not authorized the call,
    /// else with `NegativeAmount`, else with `Uninitialized`, else with
    /// `InsufficientAllowance`, else with `NotAuthorized` if `from` is
    /// deauthorized, else with `InsufficientBalance`.
    fn burn_from(
        &mut self,
        authorization: &Authorization,
        spender: AccountId,
        from: AccountId,
        amount: i128,
    ) -> (result: Result<Event, TokenError>)
        requires
            old(self).wf(),
        ensures
            final(self).wf(),
            match old(self).state().burn_from(authorization@, spender, from, amount) {
                Ok((after, event)) => {
                    &&& result == Ok::<Event, TokenError>(event)
                    &&& final(self).state() == after
                },
                Err(e) => {
                    &&& result == Err::<Event, TokenError>(e)
                    &&& *final(self) == *old(self)
                },
            },
    ;

    /// Destroys `amount` of what `from` owns, by order of the administrator.
    /// No allowance is needed or used up.
    ///
    /// Fails with `NotAuthorized` if `admin` has not authorized the call,
    /// else with `NegativeAmount`, else with `Uninitialized`, else with
    /// `NotAdmin` if `admin` is not the administrator, else with
    /// `NotAuthorized` if `from` is deauthorized, else with
    /// `InsufficientBalance`.
    fn clawback(
        &mut self,
        authorization: &Authorization,
        admin: AccountId,
        from: AccountId,
        amount: i128,
    ) -> (result: Result<Event, TokenError>)
        requires
            old(self).wf(),
        ensures
            final(self).wf(),
            match old(self).state().clawback(authorization@, admin, from, amount) {
                Ok((after, event)) => {
                    &&& result == Ok::<Event, TokenError>(event)
                    &&& final(self).state() == after
                },
                Err(e) => {
                    &&& result == Err::<Event, TokenError>(e)
                    &&& *final(self) == *old(self)
                },
            },
    ;

    /// Authorizes or deauthorizes `id`, by order of the administrator.
    ///
    /// Fails with `NotAuthorized` if `admin` has not authorized the call,
    /// else with `Uninitialized`, else with `NotAdmin` if `admin` is not the
    /// administrator.
    fn set_auth(
        &mut self,
        authorization: &Authorization,
        admin: AccountId,
        id: AccountId,
        authorize: bool,
    ) -> (result: Result<Event, TokenError>)
        requires
            old(self).wf(),
        ensures
            final(self).wf(),
            match old(self).state().set_auth(authorization@, admin, id, authorize) {
                Ok((after, event)) => {
                    &&& result == Ok::<Event, TokenError>(event)
                    &&& final(self).state() == after
                },
                Err(e) => {
                    &&& result == Err::<Event, TokenError>(e)
                    &&& *final(self) == *old(self)
                },
            },
    ;

    /// Creates `amount` for `to`, by order of the administrator.
    ///
    /// Fails with `NotAuthorized` if `admin` has not authorized the call,
    /// else with `NegativeAmount`, else with `Uninitialized`, else with
    /// `NotAdmin` if `admin` is not the administrator, else with
    /// `NotAuthorized` if `to` is deauthorized, else with `Overflow` if the
    /// balance of `to` would not fit in an `i128`.
    fn mint(
        &mut self,
        authorization: &Authorization,
        admin: AccountId,
        to: AccountId,
        amount: i128,
    ) -> (result: Result<Event, TokenError>)
        requires
            old(self).wf(),
        ensures
            final(self).wf(),
            match old(self).state().mint(authorization@, admin, to, amount) {
                Ok((after, event)) => {
                    &&& result == Ok::<Event, TokenError>(event)
                    &&& final(self).state() == after
                },
                Err(e) => {
                    &&& result == Err::<Event, TokenError>(e)
                    &&& *final(self) == *old(self)
                },
            },
    ;

    /// Makes `new_admin` the administrator, by order of the administrator.
    ///
    /// Fails with `NotAuthorized` if `admin` has not authorized the call,
    /// else with `Uninitialized`, else with `NotAdmin` if `admin` is not the
    /// administrator.
    fn set_admin(
        &mut self,
        authorization: &Authorization,
        admin: AccountId,
        new_admin: AccountId,
    ) -> (result: Result<Event, TokenError>)
        requires
            old(self).wf(),
        ensures
            final(self).wf(),
            match old(self).state().set_admin(authorization@, admin, new_admin) {
                Ok((after, event)) => {
                    &&& result == Ok::<Event, TokenError>(event)
                    &&& final(self).state() == after
                },
                Err(e) => {
                    &&& result == Err::<Event, TokenError>(e)
                    &&& *final(self) == *old(self)
                },
            },
    ;

    /// The number of decimals in which amounts are displayed.
    ///
    /// Fails with `Uninitialized` while the token has no administrator.
    fn decimals(&self) -> (result: Result<u32, TokenError>)
        ensures
            match self.state().active() {
                Ok(_) => result == Ok::<u32, TokenError>(self.state().metadata.decimal as u32),
                Err(e) => result == Err::<u32, TokenError>(e),
            },
    ;

    /// The token's name.
    ///
    /// Fails with `Uninitialized` while the token has no administrator.
    fn name(&self) -> (result: Result<Vec<u8>, TokenError>)
        ensures
            match self.state().active() {
                Ok(_) => result is Ok && result->Ok_0@ == self.state().metadata.name,
                Err(e) => result is Err && result->Err_0 == e,
            },
    ;

    /// The token's symbol.
    ///
    /// Fails with `Uninitialized` while the token has no administrator.
    fn symbol(&self) -> (result: Result<Vec<u8>, TokenError>)
        ensures
            match self.state().active() {
                Ok(_) => result is Ok && result->Ok_0@ == self.state().metadata.symbol,
                Err(e) => result is Err && result->Err_0 == e,
            },
    ;
}

/// A fungible token: its administrator, its metadata, the balances of its
/// accounts and the allowances between them.
#[derive(Debug)]
pub struct Token {
    admin: AdminRegistry,
    metadata: Metadata,
    balances: BalanceLedger,
    allowances: AllowanceLedger,
}

impl View for Token {
    type V = TokenState;

    /// What the token holds.
    closed spec fn view(&self) -> TokenState {
        TokenState {
            admin: self.admin@,
            metadata: self.metadata@,
            balances: self.balances@,
            allowances: self.allowances@,
        }
    }
}

impl Token {
    /// The uninitialized token, with empty ledgers.
    pub fn new() -> (token: Token)
        ensures
            token.wf(),
            token@ == TokenState::empty(),
    {
        Token {
            admin: AdminRegistry::new(),
            metadata: Metadata::unset(),
            balances: BalanceLedger::new(),
            allowances: AllowanceLedger::new(),
        }
    }

    /// The token made of the given parts, as when a host has read them back
    /// from where it keeps them.
    pub fn from_parts(
        admin: AdminRegistry,
        metadata: Metadata,
        balances: BalanceLedger,
        allowances: AllowanceLedger,
    ) -> (token: Token)
        requires
            balances.wf(),
            allowances.wf(),
        ensures
            token.wf(),
            token@ == (TokenState {
                admin: admin@,
                metadata: metadata@,
                balances: balances@,
                allowances: allowances@,
            }),
    {
        Token { admin, metadata, balances, allowances }
    }

    /// The administrator registry.
    pub fn admin(&self) -> (admin: &AdminRegistry)
        ensures
            admin@ == self@.admin,
    {
        &self.admin
    }

    /// The metadata store.
    pub fn metadata(&self) -> (metadata: &Metadata)
        ensures
            metadata@ == self@.metadata,
    {
        &self.metadata
    }

    /// The balance ledger.
    pub fn balances(&self) -> (balances: &BalanceLedger)
        ensures
            balances@ == self@.balances,
            self.wf() ==> balances.wf(),
    {
        &self.balances
    }

    /// The allowance ledger.
    pub fn allowances(&self) -> (allowances: &AllowanceLedger)
        ensures
            allowances@ == self@.allowances,
            self.wf() ==> allowances.wf(),
    {
        &self.allowances
    }
}

impl TokenTrait for Token {
    open spec fn state(&self) -> TokenState {
        self@
    }

    /// Both ledgers are well formed.
    closed spec fn wf(&self) -> bool {
        self.balances.wf() && self.allowances.wf()
    }

    proof fn lemma_valid(&self) {
        self.balances.lemma_valid();
        self.allowances.lemma_valid();
    }

    fn initialize(
        &mut self,
        admin: AccountId,
        decimal: u32,
        name: Vec<u8>,
        symbol: Vec<u8>,
    ) -> (result: Result<(), TokenError>) {
        if self.admin.has_administrator() {
            return Err(TokenError::AlreadyInitialized);
        }
        let metadata = Metadata::new(decimal, name, symbol)?;
        self.admin.rotate(admin);
        self.metadata = metadata;
        Ok(())
    }

    fn allowance(&self, from: AccountId, spender: AccountId) -> (result: Result<
        i128,
        TokenError,
    >) {
        self.admin.read()?;
        Ok(self.allowances.read(from, spender))
    }

    fn incr_allow(
        &mut self,
        authorization: &Authorization,
        from: AccountId,
        spender: AccountId,
        amount: i128,
    ) -> (result: Result<Event, TokenError>) {
        authorization.require(from)?;
        check_nonnegative_amount(amount)?;
        self.admin.read()?;
        self.allowances.increase(from, spender, amount)?;
        Ok(Event::IncrAllow { from, spender, amount })
    }

    fn decr_allow(
        &mut self,
        authorization: &Authorization,
        from: AccountId,
        spender: AccountId,
        amount: i128,
    ) -> (result: Result<Event, TokenError>) {
        authorization.require(from)?;
        check_nonnegative_amount(amount)?;
        self.admin.read()?;
        self.allowances.decrease(from, spender, amount);
        Ok(Event::DecrAllow { from, spender, amount })
    }

    fn balance(&self, id: AccountId) -> (result: Result<i128, TokenError>) {
        self.admin.read()?;
        Ok(self.balances.read(id))
    }

    fn spendable(&self, id: AccountId) -> (result: Result<i128, TokenError>) {
        self.balance(id)
    }

    fn authorized(&self, id: AccountId) -> (result: Result<bool, TokenError>) {
        self.admin.read()?;
        Ok(self.balances.is_authorized(id))
    }

    fn transfer(&mut self, from: AccountId, to: AccountId, amount: i128) -> (result: Result<
        Event,
        TokenError,
    >) {
        check_nonnegative_amount(amount)?;
        self.admin.read()?;
        self.balances.transfer(from, to, amount)?;
        Ok(Event::Transfer { from, to, amount })
    }

    fn transfer_from(
        &mut self,
        authorization: &Authorization,
        spender: AccountId,
        from: AccountId,
        to: AccountId,
        amount: i128,
    ) -> (result: Result<Event, TokenError>) {
        authorization.require(spender)?;
        check_nonnegative_amount(amount)?;
        self.admin.read()?;
        let left = self.allowances.checked_spend(from, spender, amount)?;
        self.balances.transfer(from, to, amount)?;
        self.allowances.write(from, spender, left);
        Ok(Event::Transfer { from, to, amount })
    }

    fn burn(&mut self, authorization: &Authorization, from: AccountId, amount: i128) -> (result:
        Result<Event, TokenError>) {
        authorization.require(from)?;
        check_nonnegative_amount(amount)?;
        self.admin.read()?;
        self.balances.debit(from, amount)?;
        Ok(Event::Burn { from, amount })
    }

    fn burn_from(
        &mut self,
        authorization: &Authorization,
        spender: AccountId,
        from: AccountId,
        amount: i128,
    ) -> (result: Result<Event, TokenError>) {
        authorization.require(spender)?;
        check_nonnegative_amount(amount)?;
        self.admin.read()?;
        let left = self.allowances.checked_spend(from, spender, amount)?;
        self.balances.debit(from, amount)?;
        self.allowances.write(from, spender, left);
        Ok(Event::Burn { from, amount })
    }

    fn clawback(
        &mut self,
        authorization: &Authorization,
        admin: AccountId,
        from: AccountId,
        amount: i128,
    ) -> (result: Result<Event, TokenError>) {
        authorization.require(admin)?;
        check_nonnegative_amount(amount)?;
        self.admin.check(admin)?;
        self.balances.debit(from, amount)?;
        Ok(Event::Clawback { admin, from, amount })
    }

    fn set_auth(
        &mut self,
        authorization: &Authorization,
        admin: AccountId,
        id: AccountId,
        authorize: bool,
    ) -> (result: Result<Event, TokenError>) {
        authorization.require(admin)?;
        self.admin.check(admin)?;
        self.balances.set_authorized(id, authorize);
        Ok(Event::SetAuth { admin, id, authorize })
    }

    fn mint(
        &mut self,
        authorization: &Authorization,
        admin: AccountId,
        to: AccountId,
        amount: i128,
    ) -> (result: Result<Event, TokenError>) {
        authorization.require(admin)?;
        check_nonnegative_amount(amount)?;
        self.admin.check(admin)?;
        self.balances.credit(to, amount)?;
        Ok(Event::Mint { admin, to, amount })
    }

    fn set_admin(
        &mut self,
        authorization: &Authorization,
        admin: AccountId,
        new_admin: AccountId,
    ) -> (result: Result<Event, TokenError>) {
        authorization.require(admin)?;
        self.admin.check(admin)?;
        self.admin.rotate(new_admin);
        Ok(Event::SetAdmin { admin, new_admin })
    }

    fn decimals(&self) -> (result: Result<u32, TokenError>) {
        self.admin.read()?;
        Ok(self.metadata.decimal())
    }

    fn name(&self) -> (result: Result<Vec<u8>, TokenError>) {
        self.admin.read()?;
        Ok(self.metadata.name())
    }

    fn symbol(&self) -> (result: Result<Vec<u8>, TokenError>) {
        self.admin.read()?;
        Ok(self.metadata.symbol())
    }
}

} // verus!
