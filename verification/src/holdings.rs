//! The balance ledger as mathematics: a finite map from accounts to what
//! they hold, the sum of all balances, and the moves that change a balance.

use crate::account::AccountId;
use crate::error::TokenError;
use vstd::prelude::*;

verus! {

/// What the ledger records for one account.
pub struct Holding {
    /// The amount the account owns.
    pub balance: int,
    /// Whether the account may send and receive value.
    pub authorized: bool,
}

/// The holdings of every account that the ledger has a record of.
///
/// An account without a record owns nothing and is authorized.
#[verifier::ext_equal]
pub struct Balances {
    pub holdings: Map<AccountId, Holding>,
}

impl Balances {
    /// No account has a record.
    pub open spec fn empty() -> Balances {
        Balances { holdings: Map::empty() }
    }

    /// The amount that `account` owns.
    pub open spec fn balance_of(self, account: AccountId) -> int {
        if self.holdings.contains_key(account) {
            self.holdings[account].balance
        } else {
            0
        }
    }

    /// Whether `account` may send and receive value.
    pub open spec fn is_authorized(self, account: AccountId) -> bool {
        if self.holdings.contains_key(account) {
            self.holdings[account].authorized
        } else {
            true
        }
    }

    /// These holdings with the balance of `account` replaced by `balance`.
    pub open spec fn with_balance(self, account: AccountId, balance: int) -> Balances {
        Balances {
            holdings: self.holdings.insert(
                account,
                Holding { balance, authorized: self.is_authorized(account) },
            ),
        }
    }

    /// These holdings with `account` authorized or deauthorized.
    pub open spec fn with_authorized(self, account: AccountId, authorized: bool) -> Balances {
        Balances {
            holdings: self.holdings.insert(
                account,
                Holding { balance: self.balance_of(account), authorized },
            ),
        }
    }

    /// Finitely many accounts have a record, and every recorded balance is a
    /// non-negative `i128`.
    pub open spec fn valid(self) -> bool {
        &&& self.holdings.dom().finite()
        &&& forall|account: AccountId| #[trigger]
            self.holdings.contains_key(account) ==> 0 <= self.holdings[account].balance
                <= i128::MAX
    }

    /// The sum of the balances of all accounts.
    pub open spec fn total_supply(self) -> int
        decreases self.holdings.dom().len(),
        when self.holdings.dom().finite()
    {
        if self.holdings.dom().len() == 0 {
            0
        } else {
            let account = self.holdings.dom().choose();
            self.holdings[account].balance + (Balances {
                holdings: self.holdings.remove(account),
            }).total_supply()
        }
    }

    /// Adding `amount` to the balance of `account`.
    ///
    /// Refused with `NotAuthorized` when the account is deauthorized, else
    /// with `Overflow` when the new balance would not fit in an `i128`.
    pub open spec fn credit(self, account: AccountId, amount: int) -> Result<Balances, TokenError> {
        if !self.is_authorized(account) {
            Err(TokenError::NotAuthorized)
        } else if self.balance_of(account) + amount > i128::MAX {
            Err(TokenError::Overflow)
        } else {
            Ok(self.with_balance(account, self.balance_of(account) + amount))
        }
    }

    /// Taking `amount` from the balance of `account`.
    ///
    /// Refused with `NotAuthorized` when the account is deauthorized, else
    /// with `InsufficientBalance` when it owns less than `amount`.
    pub open spec fn debit(self, account: AccountId, amount: int) -> Result<Balances, TokenError> {
        if !self.is_authorized(account) {
            Err(TokenError::NotAuthorized)
        } else if amount > self.balance_of(account) {
            Err(TokenError::InsufficientBalance)
        } else {
            Ok(self.with_balance(account, self.balance_of(account) - amount))
        }
    }

    /// Taking `amount` from `from` and then adding it to `to`; refused as a
    /// whole when either step is.
    pub open spec fn transfer(self, from: AccountId, to: AccountId, amount: int) -> Result<
        Balances,
        TokenError,
    > {
        match self.debit(from, amount) {
            Ok(debited) => debited.credit(to, amount),
            Err(e) => Err(e),
        }
    }

    /// The total supply is the balance of any one recorded account plus the
    /// total supply of the rest.
    pub proof fn lemma_total_supply_split(self, account: AccountId)
        requires
            self.holdings.dom().finite(),
            self.holdings.contains_key(account),
        ensures
            self.total_supply() == self.holdings[account].balance + (Balances {
                holdings: self.holdings.remove(account),
            }).total_supply(),
        decreases self.holdings.dom().len(),
    {
        let chosen = self.holdings.dom().choose();
        if chosen != account {
            let without_chosen = Balances { holdings: self.holdings.remove(chosen) };
            let without_account = Balances { holdings: self.holdings.remove(account) };
            without_chosen.lemma_total_supply_split(account);
            without_account.lemma_total_supply_split(chosen);
            assert(without_chosen.holdings.remove(account) =~= without_account.holdings.remove(
                chosen,
            ));
        }
    }

    /// Recording a holding for an account changes the total supply by the
    /// difference between the new balance and the old one.
    pub proof fn lemma_total_supply_insert(self, account: AccountId, holding: Holding)
        requires
            self.holdings.dom().finite(),
        ensures
            (Balances { holdings: self.holdings.insert(account, holding) }).total_supply()
                == self.total_supply() - self.balance_of(account) + holding.balance,
    {
        let after = Balances { holdings: self.holdings.insert(account, holding) };
        after.lemma_total_supply_split(account);
        assert(after.holdings.remove(account) =~= self.holdings.remove(account));
        if self.holdings.contains_key(account) {
            self.lemma_total_supply_split(account);
        } else {
            assert(self.holdings.remove(account) =~= self.holdings);
        }
    }

    /// Replacing one balance keeps the holdings valid and moves the total
    /// supply by the change of that balance.
    pub proof fn lemma_with_balance(self, account: AccountId, balance: int)
        requires
            self.valid(),
            0 <= balance <= i128::MAX,
        ensures
            self.with_balance(account, balance).valid(),
            self.with_balance(account, balance).total_supply() == self.total_supply()
                - self.balance_of(account) + balance,
    {
        self.lemma_total_supply_insert(
            account,
            Holding { balance, authorized: self.is_authorized(account) },
        );
    }

    /// Authorizing or deauthorizing an account keeps the holdings valid and
    /// the total supply as it was.
    pub proof fn lemma_with_authorized(self, account: AccountId, authorized: bool)
        requires
            self.valid(),
        ensures
            self.with_authorized(account, authorized).valid(),
            self.with_authorized(account, authorized).total_supply() == self.total_supply(),
    {
        self.lemma_total_supply_insert(
            account,
            Holding { balance: self.balance_of(account), authorized },
        );
    }

    /// A credit that is not refused keeps the holdings valid and raises the
    /// total supply by the amount.
    pub proof fn lemma_credit(self, account: AccountId, amount: int)
        requires
            self.valid(),
            amount >= 0,
            self.credit(account, amount) is Ok,
        ensures
            self.credit(account, amount)->Ok_0.valid(),
            self.credit(account, amount)->Ok_0.total_supply() == self.total_supply() + amount,
    {
        self.lemma_with_balance(account, self.balance_of(account) + amount);
    }

    /// A debit that is not refused keeps the holdings valid and lowers the
    /// total supply by the amount.
    pub proof fn lemma_debit(self, account: AccountId, amount: int)
        requires
            self.valid(),
            amount >= 0,
            self.debit(account, amount) is Ok,
        ensures
            self.debit(account, amount)->Ok_0.valid(),
            self.debit(account, amount)->Ok_0.total_supply() == self.total_supply() - amount,
    {
        self.lemma_with_balance(account, self.balance_of(account) - amount);
    }

    /// A transfer that is not refused keeps the holdings valid and the total
    /// supply as it was.
    pub proof fn lemma_transfer(self, from: AccountId, to: AccountId, amount: int)
        requires
            self.valid(),
            amount >= 0,
            self.transfer(from, to, amount) is Ok,
        ensures
            self.transfer(from, to, amount)->Ok_0.valid(),
            self.transfer(from, to, amount)->Ok_0.total_supply() == self.total_supply(),
    {
        self.lemma_debit(from, amount);
        self.debit(from, amount)->Ok_0.lemma_credit(to, amount);
    }

    /// No account owns more than the total supply.
    pub proof fn lemma_balance_within_supply(self, account: AccountId)
        requires
            self.valid(),
        ensures
            0 <= self.balance_of(account) <= self.total_supply(),
        decreases self.holdings.dom().len(),
    {
        if self.holdings.dom().len() != 0 {
            let chosen = self.holdings.dom().choose();
            let rest = Balances { holdings: self.holdings.remove(chosen) };
            rest.lemma_balance_within_supply(account);
        }
    }
}

} // verus!
