//! Sequences of calls, and what holds of a token whatever was called.
//!
//! A `Call` is one use of a state-changing operation together with the
//! accounts that authorized it. Applying a sequence of calls to a state
//! gives the state that a token is in after them, refused calls leaving no
//! trace. The theorems of this module hold of every such sequence: balances
//! and allowances never go below zero, value is created by minting alone and
//! destroyed by burning and clawing back alone, the metadata never changes
//! once set, and an initialized token stays initialized.

use crate::account::AccountId;
use crate::error::TokenError;
use crate::event::Event;
use crate::metadata::MetadataView;
use crate::state::TokenState;
use vstd::prelude::*;

verus! {

/// A state-changing operation with its arguments.
pub enum Operation {
    Initialize { admin: AccountId, decimal: u32, name: Seq<u8>, symbol: Seq<u8> },
    IncrAllow { from: AccountId, spender: AccountId, amount: i128 },
    DecrAllow { from: AccountId, spender: AccountId, amount: i128 },
    Transfer { from: AccountId, to: AccountId, amount: i128 },
    TransferFrom { spender: AccountId, from: AccountId, to: AccountId, amount: i128 },
    Burn { from: AccountId, amount: i128 },
    BurnFrom { spender: AccountId, from: AccountId, amount: i128 },
    Clawback { admin: AccountId, from: AccountId, amount: i128 },
    SetAuth { admin: AccountId, id: AccountId, authorize: bool },
    Mint { admin: AccountId, to: AccountId, amount: i128 },
    SetAdmin { admin: AccountId, new_admin: AccountId },
}

impl Operation {
    /// The account that has to authorize the operation, if it needs any
    /// authorization.
    pub open spec fn actor(self) -> Option<AccountId> {
        match self {
            Operation::Initialize { .. } => None,
            Operation::IncrAllow { from, .. } => Some(from),
            Operation::DecrAllow { from, .. } => Some(from),
            Operation::Transfer { .. } => None,
            Operation::TransferFrom { spender, .. } => Some(spender),
            Operation::Burn { from, .. } => Some(from),
            Operation::BurnFrom { spender, .. } => Some(spender),
            Operation::Clawback { admin, .. } => Some(admin),
            Operation::SetAuth { admin, .. } => Some(admin),
            Operation::Mint { admin, .. } => Some(admin),
            Operation::SetAdmin { admin, .. } => Some(admin),
        }
    }

    /// The account that has to be the administrator for the operation, if
    /// the operation is the administrator's.
    pub open spec fn administrator(self) -> Option<AccountId> {
        match self {
            Operation::Clawback { admin, .. } => Some(admin),
            Operation::SetAuth { admin, .. } => Some(admin),
            Operation::Mint { admin, .. } => Some(admin),
            Operation::SetAdmin { admin, .. } => Some(admin),
            _ => None,
        }
    }
}

/// One call: an operation and the accounts that authorized it.
pub struct Call {
    pub signers: Set<AccountId>,
    pub operation: Operation,
}

/// The state of a successful operation, without its event.
pub open spec fn state_of<E>(outcome: Result<(TokenState, E), TokenError>) -> Result<
    TokenState,
    TokenError,
> {
    match outcome {
        Ok((state, _)) => Ok(state),
        Err(e) => Err(e),
    }
}

impl TokenState {
    /// The state that `call` leads to, or the reason why it is refused.
    pub open spec fn apply(self, call: Call) -> Result<TokenState, TokenError> {
        let signers = call.signers;
        match call.operation {
            Operation::Initialize { admin, decimal, name, symbol } => self.initialize(
                admin,
                decimal,
                name,
                symbol,
            ),
            Operation::IncrAllow { from, spender, amount } => state_of(
                self.incr_allow(signers, from, spender, amount),
            ),
            Operation::DecrAllow { from, spender, amount } => state_of(
                self.decr_allow(signers, from, spender, amount),
            ),
            Operation::Transfer { from, to, amount } => state_of(self.transfer(from, to, amount)),
            Operation::TransferFrom { spender, from, to, amount } => state_of(
                self.transfer_from(signers, spender, from, to, amount),
            ),
            Operation::Burn { from, amount } => state_of(self.burn(signers, from, amount)),
            Operation::BurnFrom { spender, from, amount } => state_of(
                self.burn_from(signers, spender, from, amount),
            ),
            Operation::Clawback { admin, from, amount } => state_of(
                self.clawback(signers, admin, from, amount),
            ),
            Operation::SetAuth { admin, id, authorize } => state_of(
                self.set_auth(signers, admin, id, authorize),
            ),
            Operation::Mint { admin, to, amount } => state_of(
                self.mint(signers, admin, to, amount),
            ),
            Operation::SetAdmin { admin, new_admin } => state_of(
                self.set_admin(signers, admin, new_admin),
            ),
        }
    }

    /// The state after `call`: the one it leads to, or this one if it is
    /// refused.
    pub open spec fn after(self, call: Call) -> TokenState {
        match self.apply(call) {
            Ok(state) => state,
            Err(_) => self,
        }
    }

    /// The state after all of `calls`, made one after the other.
    pub open spec fn after_all(self, calls: Seq<Call>) -> TokenState
        decreases calls.len(),
    {
        if calls.len() == 0 {
            self
        } else {
            self.after_all(calls.drop_last()).after(calls.last())
        }
    }

    /// The amount that `call` creates when made in this state: that of a
    /// mint that is not refused.
    pub open spec fn minted_by(self, call: Call) -> int {
        if self.apply(call) is Ok {
            match call.operation {
                Operation::Mint { amount, .. } => amount as int,
                _ => 0,
            }
        } else {
            0
        }
    }

    /// The amount that `call` destroys when made in this state: that of a
    /// burn or a clawback that is not refused.
    pub open spec fn burned_by(self, call: Call) -> int {
        if self.apply(call) is Ok {
            match call.operation {
                Operation::Burn { amount, .. } => amount as int,
                Operation::BurnFrom { amount, .. } => amount as int,
                Operation::Clawback { amount, .. } => amount as int,
                _ => 0,
            }
        } else {
            0
        }
    }

    /// The sum of the amounts that `calls` create, made one after the other
    /// from this state on.
    pub open spec fn minted_by_all(self, calls: Seq<Call>) -> int
        decreases calls.len(),
    {
        if calls.len() == 0 {
            0
        } else {
            self.minted_by_all(calls.drop_last()) + self.after_all(calls.drop_last()).minted_by(
                calls.last(),
            )
        }
    }

    /// The sum of the amounts that `calls` destroy, made one after the other
    /// from this state on.
    pub open spec fn burned_by_all(self, calls: Seq<Call>) -> int
        decreases calls.len(),
    {
        if calls.len() == 0 {
            0
        } else {
            self.burned_by_all(calls.drop_last()) + self.after_all(calls.drop_last()).burned_by(
                calls.last(),
            )
        }
    }

    /// A call made in a valid state leaves a valid state, and changes the
    /// total supply by what it creates less what it destroys.
    pub proof fn lemma_call(self, call: Call)
        requires
            self.valid(),
        ensures
            self.after(call).valid(),
            self.after(call).total_supply() == self.total_supply() + self.minted_by(call)
                - self.burned_by(call),
    {
        if self.apply(call) is Ok {
            match call.operation {
                Operation::Transfer { from, to, amount } => {
                    self.balances.lemma_transfer(from, to, amount as int);
                },
                Operation::TransferFrom { from, to, amount, .. } => {
                    self.balances.lemma_transfer(from, to, amount as int);
                },
                Operation::Burn { from, amount } => {
                    self.balances.lemma_debit(from, amount as int);
                },
                Operation::BurnFrom { from, amount, .. } => {
                    self.balances.lemma_debit(from, amount as int);
                },
                Operation::Clawback { from, amount, .. } => {
                    self.balances.lemma_debit(from, amount as int);
                },
                Operation::SetAuth { id, authorize, .. } => {
                    self.balances.lemma_with_authorized(id, authorize);
                },
                Operation::Mint { to, amount, .. } => {
                    self.balances.lemma_credit(to, amount as int);
                },
                _ => {},
            }
        }
    }

    /// Whatever is called from a valid state on, the state stays valid, and
    /// the total supply is what it was plus all that was created less all
    /// that was destroyed.
    pub proof fn lemma_calls(self, calls: Seq<Call>)
        requires
            self.valid(),
        ensures
            self.after_all(calls).valid(),
            self.after_all(calls).total_supply() == self.total_supply() + self.minted_by_all(
                calls,
            ) - self.burned_by_all(calls),
        decreases calls.len(),
    {
        if calls.len() > 0 {
            self.lemma_calls(calls.drop_last());
            self.after_all(calls.drop_last()).lemma_call(calls.last());
        }
    }

    /// Conservation of value: after any sequence of calls made on the empty
    /// token, the balances of all accounts add up to the amounts minted
    /// less the amounts burned and clawed back.
    pub proof fn lemma_conservation(calls: Seq<Call>)
        ensures
            TokenState::empty().after_all(calls).total_supply()
                == TokenState::empty().minted_by_all(calls) - TokenState::empty().burned_by_all(
                calls,
            ),
    {
        TokenState::empty().lemma_calls(calls);
    }

    /// After any sequence of calls made on the empty token, no account owns
    /// less than nothing, or more than the total supply.
    pub proof fn lemma_balance_never_negative(calls: Seq<Call>, account: AccountId)
        ensures
            0 <= TokenState::empty().after_all(calls).balances.balance_of(account)
                <= TokenState::empty().after_all(calls).total_supply(),
    {
        let empty = TokenState::empty();
        empty.lemma_calls(calls);
        empty.after_all(calls).balances.lemma_balance_within_supply(account);
    }

    /// After any sequence of calls made on the empty token, no allowance is
    /// below zero.
    pub proof fn lemma_allowance_never_negative(
        calls: Seq<Call>,
        owner: AccountId,
        spender: AccountId,
    )
        ensures
            0 <= TokenState::empty().after_all(calls).allowances.allowance_of(owner, spender),
    {
        TokenState::empty().lemma_calls(calls);
    }

    /// A call that is not refused was authorized by the account it acts
    /// for, and, where the operation is the administrator's, that account is
    /// the administrator.
    pub proof fn lemma_gated(self, call: Call)
        requires
            self.apply(call) is Ok,
        ensures
            call.operation.actor() matches Some(actor) ==> call.signers.contains(actor),
            call.operation.administrator() matches Some(admin) ==> self.admin == Some(admin),
    {
    }

    /// The administrator changes only when a token is initialized or the
    /// administrator names a successor.
    pub proof fn lemma_administrator_stays(self, call: Call)
        requires
            !(call.operation is Initialize),
            !(call.operation is SetAdmin),
        ensures
            self.after(call).admin == self.admin,
    {
    }

    /// No call changes what a deauthorized account owns.
    pub proof fn lemma_deauthorized_is_frozen(self, call: Call, account: AccountId)
        requires
            !self.balances.is_authorized(account),
        ensures
            self.after(call).balances.balance_of(account) == self.balances.balance_of(account),
    {
    }

    /// Only `initialize` succeeds on an uninitialized token.
    pub proof fn lemma_uninitialized_refuses(self, call: Call)
        requires
            self.admin is None,
            !(call.operation is Initialize),
        ensures
            self.apply(call) is Err,
    {
    }

    /// Once a token is initialized it stays so, and no call changes its
    /// metadata.
    pub proof fn lemma_initialized_for_good(self, calls: Seq<Call>)
        requires
            self.admin is Some,
        ensures
            self.after_all(calls).admin is Some,
            self.after_all(calls).metadata == self.metadata,
        decreases calls.len(),
    {
        if calls.len() > 0 {
            self.lemma_initialized_for_good(calls.drop_last());
        }
    }

    /// A token is initialized once: after an `initialize` that was not
    /// refused, the administrator and the metadata are those it was called
    /// with, and every further `initialize` is refused with
    /// `AlreadyInitialized` and changes nothing.
    pub proof fn lemma_initialize_once(
        self,
        admin: AccountId,
        decimal: u32,
        name: Seq<u8>,
        symbol: Seq<u8>,
        second_admin: AccountId,
        second_decimal: u32,
        second_name: Seq<u8>,
        second_symbol: Seq<u8>,
    )
        requires
            self.initialize(admin, decimal, name, symbol) is Ok,
        ensures
            ({
                let first = self.initialize(admin, decimal, name, symbol)->Ok_0;
                let second = Call {
                    signers: Set::empty(),
                    operation: Operation::Initialize {
                        admin: second_admin,
                        decimal: second_decimal,
                        name: second_name,
                        symbol: second_symbol,
                    },
                };
                &&& first.admin == Some(admin)
                &&& first.metadata == (MetadataView { decimal: decimal as u8, name, symbol })
                &&& decimal <= u8::MAX
                &&& first.apply(second) == Err::<TokenState, TokenError>(
                    TokenError::AlreadyInitialized,
                )
                &&& first.after(second) == first
            }),
    {
    }

    /// Lowering an allowance by no less than it is leaves it zero, and is
    /// not refused, once the call has passed what is tested of every call:
    /// the authorization of `from`, the sign of `amount`, and that the token
    /// is initialized.
    pub proof fn lemma_decrease_clamps(
        self,
        signers: Set<AccountId>,
        from: AccountId,
        spender: AccountId,
        amount: i128,
    )
        requires
            self.admits(signers, from, amount) is Ok,
            amount >= self.allowances.allowance_of(from, spender),
        ensures
            self.decr_allow(signers, from, spender, amount) is Ok,
            self.decr_allow(signers, from, spender, amount)->Ok_0.0.allowances.allowance_of(
                from,
                spender,
            ) == 0,
    {
    }

    /// Spending more than the allowance is refused with
    /// `InsufficientAllowance`, both in a transfer and in a burn, and changes
    /// nothing, once the call has passed what is tested of every call: the
    /// authorization of `spender`, the sign of `amount`, and that the token
    /// is initialized.
    pub proof fn lemma_overspending_refused(
        self,
        signers: Set<AccountId>,
        spender: AccountId,
        from: AccountId,
        to: AccountId,
        amount: i128,
    )
        requires
            self.admits(signers, spender, amount) is Ok,
            amount > self.allowances.allowance_of(from, spender),
        ensures
            self.transfer_from(signers, spender, from, to, amount) == Err::<
                (TokenState, Event),
                TokenError,
            >(TokenError::InsufficientAllowance),
            self.burn_from(signers, spender, from, amount) == Err::<
                (TokenState, Event),
                TokenError,
            >(TokenError::InsufficientAllowance),
            self.after(
                (Call { signers, operation: Operation::TransferFrom { spender, from, to, amount } }),
            ) == self,
            self.after(
                (Call { signers, operation: Operation::BurnFrom { spender, from, amount } }),
            ) == self,
    {
    }
}

} // verus!
