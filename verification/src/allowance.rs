//! The allowance ledger: how much each spender may still spend of each
//! owner's balance.

use crate::account::AccountId;
use crate::error::TokenError;
use crate::records::{
    distinct_keys, lemma_append_record, lemma_record_in_map, lemma_replace_record, to_map,
};
use vstd::prelude::*;

verus! {

/// The allowance of every pair of an owner and a spender that the ledger has
/// a record of. A pair without a record has the allowance zero.
#[verifier::ext_equal]
pub struct Allowances {
    pub limits: Map<(AccountId, AccountId), int>,
}

impl Allowances {
    /// No pair has a record.
    pub open spec fn empty() -> Allowances {
        Allowances { limits: Map::empty() }
    }

    /// The amount that `spender` may still spend of what `owner` owns.
    pub open spec fn allowance_of(self, owner: AccountId, spender: AccountId) -> int {
        if self.limits.contains_key((owner, spender)) {
            self.limits[(owner, spender)]
        } else {
            0
        }
    }

    /// These allowances with that of `spender` on `owner` replaced by
    /// `amount`.
    pub open spec fn with_allowance(
        self,
        owner: AccountId,
        spender: AccountId,
        amount: int,
    ) -> Allowances {
        Allowances { limits: self.limits.insert((owner, spender), amount) }
    }

    /// Every recorded allowance is a non-negative `i128`.
    pub open spec fn valid(self) -> bool {
        forall|pair: (AccountId, AccountId)| #[trigger]
            self.limits.contains_key(pair) ==> 0 <= self.limits[pair] <= i128::MAX
    }

    /// Raising the allowance by `amount`; refused with `Overflow` when the
    /// sum would not fit in an `i128`.
    pub open spec fn increase(self, owner: AccountId, spender: AccountId, amount: int) -> Result<
        Allowances,
        TokenError,
    > {
        if self.allowance_of(owner, spender) + amount > i128::MAX {
            Err(TokenError::Overflow)
        } else {
            Ok(self.with_allowance(owner, spender, self.allowance_of(owner, spender) + amount))
        }
    }

    /// Lowering the allowance by `amount`, but not below zero.
    pub open spec fn decrease(
        self,
        owner: AccountId,
        spender: AccountId,
        amount: int,
    ) -> Allowances {
        if amount >= self.allowance_of(owner, spender) {
            self.with_allowance(owner, spender, 0)
        } else {
            self.with_allowance(owner, spender, self.allowance_of(owner, spender) - amount)
        }
    }

    /// Using up `amount` of the allowance; refused with
    /// `InsufficientAllowance` when less than `amount` is left.
    pub open spec fn spend(self, owner: AccountId, spender: AccountId, amount: int) -> Result<
        Allowances,
        TokenError,
    > {
        if amount > self.allowance_of(owner, spender) {
            Err(TokenError::InsufficientAllowance)
        } else {
            Ok(self.with_allowance(owner, spender, self.allowance_of(owner, spender) - amount))
        }
    }
}

/// The record of one pair of an owner and a spender.
#[derive(Clone, Copy, Debug)]
struct AllowanceEntry {
    owner: AccountId,
    spender: AccountId,
    amount: i128,
}

/// The allowances of all pairs of an owner and a spender.
///
/// A pair that was never written to has the allowance zero.
#[derive(Debug)]
pub struct AllowanceLedger {
    entries: Vec<AllowanceEntry>,
}

impl View for AllowanceLedger {
    type V = Allowances;

    /// The allowances that the ledger records.
    closed spec fn view(&self) -> Allowances {
        Allowances { limits: to_map(self.records()) }
    }
}

impl AllowanceLedger {
    /// The entries as pairs of a key and the allowance recorded for it.
    spec fn records(&self) -> Seq<((AccountId, AccountId), int)> {
        self.entries@.map_values(|e: AllowanceEntry| ((e.owner, e.spender), e.amount as int))
    }

    /// No pair has two entries and no allowance is negative.
    pub closed spec fn wf(&self) -> bool {
        &&& distinct_keys(self.records())
        &&& forall|i: int|
            0 <= i < self.entries@.len() ==> 0 <= (#[trigger] self.entries@[i]).amount
    }

    /// A well-formed ledger records valid allowances.
    pub proof fn lemma_valid(&self)
        requires
            self.wf(),
        ensures
            self@.valid(),
    {
    }

    /// A ledger without any record.
    pub fn new() -> (ledger: AllowanceLedger)
        ensures
            ledger.wf(),
            ledger@ == Allowances::empty(),
    {
        AllowanceLedger { entries: Vec::new() }
    }

    /// The place of the entry of the pair, if it has one.
    fn find(&self, owner: AccountId, spender: AccountId) -> (found: Option<usize>)
        requires
            self.wf(),
        ensures
            match found {
                Some(i) => {
                    &&& i < self.entries@.len()
                    &&& self.entries@[i as int].owner == owner
                    &&& self.entries@[i as int].spender == spender
                    &&& self@.limits.contains_key((owner, spender))
                    &&& self@.limits[(owner, spender)] == self.entries@[i as int].amount
                },
                None => !self@.limits.contains_key((owner, spender)),
            },
    {
        let mut i: usize = 0;
        while i < self.entries.len()
            invariant
                self.wf(),
                i <= self.entries@.len(),
                forall|j: int|
                    0 <= j < i ==> (#[trigger] self.records()[j]).0 != (owner, spender),
            decreases self.entries@.len() - i,
        {
            if self.entries[i].owner == owner && self.entries[i].spender == spender {
                proof {
                    lemma_record_in_map(self.records(), i as int);
                }
                return Some(i);
            }
            i += 1;
        }
        None
    }

    /// The amount that `spender` may still spend of what `owner` owns: zero
    /// if the pair was never written to.
    pub fn read(&self, owner: AccountId, spender: AccountId) -> (amount: i128)
        requires
            self.wf(),
        ensures
            amount == self@.allowance_of(owner, spender),
            amount >= 0,
    {
        match self.find(owner, spender) {
            Some(i) => self.entries[i].amount,
            None => 0,
        }
    }

    /// Records `amount` as what `spender` may spend of what `owner` owns.
    pub fn write(&mut self, owner: AccountId, spender: AccountId, amount: i128)
        requires
            old(self).wf(),
            amount >= 0,
        ensures
            final(self).wf(),
            final(self)@ == old(self)@.with_allowance(owner, spender, amount as int),
    {
        let ghost before = self.records();
        let entry = AllowanceEntry { owner, spender, amount };
        match self.find(owner, spender) {
            Some(i) => {
                self.entries.set(i, entry);
                proof {
                    lemma_replace_record(before, i as int, amount as int);
                    assert(self.records() =~= before.update(
                        i as int,
                        ((owner, spender), amount as int),
                    ));
                }
            },
            None => {
                self.entries.push(entry);
                proof {
                    lemma_append_record(before, (owner, spender), amount as int);
                    assert(self.records() =~= before.push(((owner, spender), amount as int)));
                }
            },
        }
    }

    /// Raises the allowance of `spender` on `owner` by `amount`.
    ///
    /// Fails with `Overflow`, and changes nothing, if the sum would not fit
    /// in an `i128`.
    pub fn increase(&mut self, owner: AccountId, spender: AccountId, amount: i128) -> (result:
        Result<(), TokenError>)
        requires
            old(self).wf(),
            amount >= 0,
        ensures
            final(self).wf(),
            match old(self)@.increase(owner, spender, amount as int) {
                Ok(after) => result is Ok && final(self)@ == after,
                Err(e) => result == Err::<(), TokenError>(e) && *final(self) == *old(self),
            },
    {
        match self.read(owner, spender).checked_add(amount) {
            Some(sum) => {
                self.write(owner, spender, sum);
                Ok(())
            },
            None => Err(TokenError::Overflow),
        }
    }

    /// Lowers the allowance of `spender` on `owner` by `amount`; an amount
    /// that is not below the allowance leaves the allowance zero.
    pub fn decrease(&mut self, owner: AccountId, spender: AccountId, amount: i128)
        requires
            old(self).wf(),
            amount >= 0,
        ensures
            final(self).wf(),
            final(self)@ == old(self)@.decrease(owner, spender, amount as int),
    {
        let allowance = self.read(owner, spender);
        if amount >= allowance {
            self.write(owner, spender, 0);
        } else {
            self.write(owner, spender, allowance - amount);
        }
    }

    /// What would be left of the allowance of `spender` on `owner` after
    /// `amount` of it was spent. Nothing is written.
    ///
    /// Fails with `InsufficientAllowance` if less than `amount` is left.
    pub fn checked_spend(&self, owner: AccountId, spender: AccountId, amount: i128) -> (result:
        Result<i128, TokenError>)
        requires
            self.wf(),
            amount >= 0,
        ensures
            match self@.spend(owner, spender, amount as int) {
                Ok(after) => result is Ok && result->Ok_0 == after.allowance_of(owner, spender),
                Err(e) => result == Err::<i128, TokenError>(e),
            },
    {
        let allowance = self.read(owner, spender);
        if amount > allowance {
            Err(TokenError::InsufficientAllowance)
        } else {
            Ok(allowance - amount)
        }
    }

    /// Uses up `amount` of the allowance of `spender` on `owner`.
    ///
    /// Fails with `InsufficientAllowance`, and changes nothing, if less than
    /// `amount` is left.
    pub fn spend(&mut self, owner: AccountId, spender: AccountId, amount: i128) -> (result: Result<
        (),
        TokenError,
    >)
        requires
            old(self).wf(),
            amount >= 0,
        ensures
            final(self).wf(),
            match old(self)@.spend(owner, spender, amount as int) {
                Ok(after) => result is Ok && final(self)@ == after,
                Err(e) => result == Err::<(), TokenError>(e) && *final(self) == *old(self),
            },
    {
        match self.checked_spend(owner, spender, amount) {
            Ok(left) => {
                self.write(owner, spender, left);
                Ok(())
            },
            Err(e) => Err(e),
        }
    }
}

} // verus!
