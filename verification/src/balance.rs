//! The balance ledger: what each account owns, and whether it may send and
//! receive value.

use crate::account::AccountId;
use crate::error::TokenError;
use crate::holdings::{Balances, Holding};
use crate::records::{
    distinct_keys, lemma_append_record, lemma_map_is_finite, lemma_record_in_map,
    lemma_replace_record, to_map,
};
use vstd::prelude::*;

verus! {

/// The record of one account.
#[derive(Clone, Copy, Debug)]
struct BalanceEntry {
    account: AccountId,
    balance: i128,
    authorized: bool,
}

/// The balances and authorization flags of all accounts.
///
/// An account that was never written to owns nothing and is authorized.
#[derive(Debug)]
pub struct BalanceLedger {
    entries: Vec<BalanceEntry>,
}

impl View for BalanceLedger {
    type V = Balances;

    /// The holdings that the ledger records.
    closed spec fn view(&self) -> Balances {
        Balances { holdings: to_map(self.records()) }
    }
}

impl BalanceLedger {
    /// The entries as pairs of an account and its holding.
    spec fn records(&self) -> Seq<(AccountId, Holding)> {
        self.entries@.map_values(
            |e: BalanceEntry|
                (e.account, Holding { balance: e.balance as int, authorized: e.authorized }),
        )
    }

    /// No account has two entries and no balance is negative.
    pub closed spec fn wf(&self) -> bool {
        &&& distinct_keys(self.records())
        &&& forall|i: int|
            0 <= i < self.entries@.len() ==> 0 <= (#[trigger] self.entries@[i]).balance
    }

    /// A well-formed ledger records valid holdings.
    pub proof fn lemma_valid(&self)
        requires
            self.wf(),
        ensures
            self@.valid(),
    {
        lemma_map_is_finite(self.records());
    }

    /// A ledger without any record.
    pub fn new() -> (ledger: BalanceLedger)
        ensures
            ledger.wf(),
            ledger@ == Balances::empty(),
    {
        BalanceLedger { entries: Vec::new() }
    }

    /// The place of the entry of `account`, if it has one.
    fn find(&self, account: AccountId) -> (found: Option<usize>)
        requires
            self.wf(),
        ensures
            match found {
                Some(i) => {
                    &&& i < self.entries@.len()
                    &&& self.entries@[i as int].account == account
                    &&& self@.holdings.contains_key(account)
                    &&& self@.holdings[account] == self.records()[i as int].1
                },
                None => !self@.holdings.contains_key(account),
            },
    {
        let mut i: usize = 0;
        while i < self.entries.len()
            invariant
                self.wf(),
                i <= self.entries@.len(),
                forall|j: int| 0 <= j < i ==> (#[trigger] self.entries@[j]).account != account,
            decreases self.entries@.len() - i,
        {
            if self.entries[i].account == account {
                proof {
                    lemma_record_in_map(self.records(), i as int);
                }
                return Some(i);
            }
            i += 1;
        }
        None
    }

    /// The amount that `account` owns: zero if it was never written to.
    pub fn read(&self, account: AccountId) -> (balance: i128)
        requires
            self.wf(),
        ensures
            balance == self@.balance_of(account),
            balance >= 0,
    {
        match self.find(account) {
            Some(i) => self.entries[i].balance,
            None => 0,
        }
    }

    /// Whether `account` may send and receive value: `true` unless it was
    /// deauthorized.
    pub fn is_authorized(&self, account: AccountId) -> (authorized: bool)
        requires
            self.wf(),
        ensures
            authorized == self@.is_authorized(account),
    {
        match self.find(account) {
            Some(i) => self.entries[i].authorized,
            None => true,
        }
    }

    /// Puts `entry` in the place of the entry that its account has, or
    /// appends it.
    fn store(&mut self, entry: BalanceEntry)
        requires
            old(self).wf(),
            entry.balance >= 0,
        ensures
            final(self).wf(),
            final(self)@.holdings == old(self)@.holdings.insert(
                entry.account,
                Holding { balance: entry.balance as int, authorized: entry.authorized },
            ),
    {
        let ghost before = self.records();
        let ghost holding = Holding { balance: entry.balance as int, authorized: entry.authorized };
        match self.find(entry.account) {
            Some(i) => {
                self.entries.set(i, entry);
                proof {
                    lemma_replace_record(before, i as int, holding);
                    assert(self.records() =~= before.update(i as int, (entry.account, holding)));
                }
            },
            None => {
                self.entries.push(entry);
                proof {
                    lemma_append_record(before, entry.account, holding);
                    assert(self.records() =~= before.push((entry.account, holding)));
                }
            },
        }
    }

    /// Records `balance` as what `account` owns.
    pub fn write(&mut self, account: AccountId, balance: i128)
        requires
            old(self).wf(),
            balance >= 0,
        ensures
            final(self).wf(),
            final(self)@ == old(self)@.with_balance(account, balance as int),
    {
        let authorized = self.is_authorized(account);
        self.store(BalanceEntry { account, balance, authorized });
    }

    /// Authorizes or deauthorizes `account`. Its balance stays as it is.
    pub fn set_authorized(&mut self, account: AccountId, authorized: bool)
        requires
            old(self).wf(),
        ensures
            final(self).wf(),
            final(self)@ == old(self)@.with_authorized(account, authorized),
    {
        let balance = self.read(account);
        self.store(BalanceEntry { account, balance, authorized });
    }

    /// Adds `amount` to what `account` owns.
    ///
    /// Fails with `NotAuthorized` if the account is deauthorized, else with
    /// `Overflow` if the new balance would not fit in an `i128`. A failed
    /// call changes nothing.
    pub fn credit(&mut self, account: AccountId, amount: i128) -> (result: Result<(), TokenError>)
        requires
            old(self).wf(),
            amount >= 0,
        ensures
            final(self).wf(),
            match old(self)@.credit(account, amount as int) {
                Ok(after) => result is Ok && final(self)@ == after,
                Err(e) => result == Err::<(), TokenError>(e) && *final(self) == *old(self),
            },
    {
        if !self.is_authorized(account) {
            return Err(TokenError::NotAuthorized);
        }
        match self.read(account).checked_add(amount) {
            Some(balance) => {
                self.write(account, balance);
                Ok(())
            },
            None => Err(TokenError::Overflow),
        }
    }

    /// Takes `amount` from what `account` owns.
    ///
    /// Fails with `NotAuthorized` if the account is deauthorized, else with
    /// `InsufficientBalance` if it owns less than `amount`. A failed call
    /// changes nothing.
    pub fn debit(&mut self, account: AccountId, amount: i128) -> (result: Result<(), TokenError>)
        requires
            old(self).wf(),
            amount >= 0,
        ensures
            final(self).wf(),
            match old(self)@.debit(account, amount as int) {
                Ok(after) => result is Ok && final(self)@ == after,
                Err(e) => result == Err::<(), TokenError>(e) && *final(self) == *old(self),
            },
    {
        if !self.is_authorized(account) {
            return Err(TokenError::NotAuthorized);
        }
        let balance = self.read(account);
        if amount > balance {
            return Err(TokenError::InsufficientBalance);
        }
        self.write(account, balance - amount);
        Ok(())
    }

    /// Moves `amount` from `from` to `to`: a debit followed by a credit.
    ///
    /// Every condition of both steps is tested before anything is written,
    /// so a failed call changes nothing: `NotAuthorized` if `from` is
    /// deauthorized, else `InsufficientBalance` if `from` owns less than
    /// `amount`, else `NotAuthorized` if `to` is deauthorized, else
    /// `Overflow` if the balance of `to` would not fit in an `i128`.
    pub fn transfer(&mut self, from: AccountId, to: AccountId, amount: i128) -> (result: Result<
        (),
        TokenError,
    >)
        requires
            old(self).wf(),
            amount >= 0,
        ensures
            final(self).wf(),
            match old(self)@.transfer(from, to, amount as int) {
                Ok(after) => result is Ok && final(self)@ == after,
                Err(e) => result == Err::<(), TokenError>(e) && *final(self) == *old(self),
            },
    {
        if !self.is_authorized(from) {
            return Err(TokenError::NotAuthorized);
        }
        let owned = self.read(from);
        if amount > owned {
            return Err(TokenError::InsufficientBalance);
        }
        let debited = owned - amount;
        if !self.is_authorized(to) {
            return Err(TokenError::NotAuthorized);
        }
        let base = if to == from {
            debited
        } else {
            self.read(to)
        };
        match base.checked_add(amount) {
            Some(credited) => {
                self.write(from, debited);
                self.write(to, credited);
                Ok(())
            },
            None => Err(TokenError::Overflow),
        }
    }
}

} // verus!
