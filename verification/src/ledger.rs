//! The ledger itself: its state in storage tables, the three queries and
//! the three operations.

use crate::account::{AccountId, Balance};
use crate::events::{Approval, Error, Result, Transfer};
use crate::model::LedgerView;
use crate::storage::{
    allowance_entries, balance_entries, supply_held, AllowanceTable, BalanceTable, SupplyCell,
};
use crate::totals::{lemma_total_bounds_entry, lemma_total_empty, lemma_total_insert};
use vstd::prelude::*;

verus! {

/// A ledger of one token with a supply fixed at issuance.
pub struct Erc20 {
    total_supply: SupplyCell,
    balances: BalanceTable,
    allowances: AllowanceTable,
}

impl View for Erc20 {
    type V = LedgerView;

    closed spec fn view(&self) -> LedgerView {
        LedgerView {
            total_supply: supply_held(self.total_supply),
            balances: balance_entries(self.balances),
            allowances: allowance_entries(self.allowances),
        }
    }
}

impl Erc20 {
    /// The invariant of every ledger: its balances add up to its supply.
    pub open spec fn wf(&self) -> bool {
        self@.conserved()
    }

    /// Issues `supply` to `issuer`. Returns the ledger and the notice of the
    /// issuance, which names no source.
    pub fn new(supply: Balance, issuer: AccountId) -> (made: (Self, Transfer))
        ensures
            made.0.wf(),
            made.0@ == LedgerView::issued(supply, issuer),
            made.1 == Transfer::issuance(issuer, supply),
    {
        let mut balances = BalanceTable::new();
        proof {
            lemma_total_empty::<AccountId>();
            lemma_total_insert(balance_entries(balances), issuer, supply);
        }
        balances.insert(issuer, supply);
        let ledger = Erc20 {
            total_supply: SupplyCell::new(supply),
            balances,
            allowances: AllowanceTable::new(),
        };
        assert(ledger@ =~~= LedgerView::issued(supply, issuer));
        (ledger, Transfer { from: None, to: Some(issuer), value: supply })
    }

    /// The supply fixed at issuance.
    pub fn total_supply(&self) -> (supply: Balance)
        ensures
            supply == self@.total_supply,
    {
        self.total_supply.get()
    }

    /// What `who` holds: zero for an account that the ledger has never seen.
    pub fn balance_of(&self, who: AccountId) -> (amount: Balance)
        ensures
            amount == self@.balance_of(who),
    {
        match self.balances.get(&who) {
            Some(amount) => amount,
            None => 0,
        }
    }

    /// What `spender` may still move out of `owner`'s balance: zero where
    /// nothing was granted.
    pub fn allowance(&self, owner: AccountId, spender: AccountId) -> (amount: Balance)
        ensures
            amount == self@.allowance(owner, spender),
    {
        match self.allowances.get(&owner, &spender) {
            Some(amount) => amount,
            None => 0,
        }
    }

    /// How many accounts have an entry in the balance table. The table has
    /// room for a new one while this is below `u32::MAX`.
    pub fn holders(&self) -> (count: u32)
        ensures
            count == self@.balances.dom().len(),
    {
        self.balances.len()
    }

    /// How many pairs of owner and spender have an entry in the allowance
    /// table. The table has room for a new one while this is below `u32::MAX`.
    pub fn grants(&self) -> (count: u32)
        ensures
            count == self@.allowances.dom().len(),
    {
        self.allowances.len()
    }

    /// Whether the balance table has room for what a movement from `from`
    /// to `to` writes: an entry for each of the two that has none yet. The
    /// table counts its entries in 32 bits.
    pub fn can_move(&self, from: AccountId, to: AccountId) -> (ok: bool)
        requires
            self.wf(),
        ensures
            ok == self@.can_move(from, to),
    {
        let used: u32 = self.balances.len();
        let has_from: bool = self.balances.get(&from).is_some();
        let has_to: bool = self.balances.get(&to).is_some();
        if !has_from && used == u32::MAX {
            false
        } else if has_to || to == from {
            true
        } else if has_from {
            used < u32::MAX
        } else {
            used < u32::MAX - 1
        }
    }

    /// Whether the allowance table has room for a grant of `owner` to
    /// `spender`: an entry for the pair, where it has none yet.
    pub fn can_grant(&self, owner: AccountId, spender: AccountId) -> (ok: bool)
        ensures
            ok == self@.can_grant(owner, spender),
    {
        self.allowances.get(&owner, &spender).is_some() || self.allowances.len() < u32::MAX
    }

    /// Moves `value` from `caller` to `to`, and reports the movement.
    /// Refused, with the ledger left as it was, exactly where `caller` holds
    /// less than `value`. A movement to oneself goes through like any other.
    ///
    /// Where the movement goes through, the balance table must have room
    /// for it: see `can_move`.
    pub fn transfer(
        &mut self,
        caller: AccountId,
        to: AccountId,
        value: Balance,
    ) -> (outcome: Result<Transfer>)
        requires
            old(self).wf(),
            old(self)@.balance_of(caller) >= value ==> old(self)@.can_move(caller, to),
        ensures
            final(self).wf(),
            final(self)@ == old(self)@.after_transfer(caller, to, value),
            outcome == old(self)@.transfer_outcome(caller, to, value),
            outcome matches Err(Error::InsufficientBalance) <==> old(self)@.balance_of(caller)
                < value,
            outcome is Err ==> final(self)@ == old(self)@,
    {
        self.inner_transfer(caller, to, value)
    }

    /// Sets what `spender` may move out of `caller`'s balance to `value`,
    /// and reports the grant. An earlier grant to the same spender is
    /// overwritten, not added to. Never refused.
    ///
    /// The allowance table must have room for the grant: see `can_grant`.
    pub fn approve(
        &mut self,
        caller: AccountId,
        spender: AccountId,
        value: Balance,
    ) -> (outcome: Result<Approval>)
        requires
            old(self).wf(),
            old(self)@.can_grant(caller, spender),
        ensures
            final(self).wf(),
            final(self)@ == old(self)@.after_approve(caller, spender, value),
            outcome == old(self)@.approve_outcome(caller, spender, value),
            outcome is Ok,
            final(self)@.allowance(caller, spender) == value,
    {
        self.allowances.insert(caller, spender, value);
        assert(self@ =~~= old(self)@.after_approve(caller, spender, value));
        Ok(Approval { owner: caller, spender, value })
    }

    /// Moves `value` from `from` to `to` on behalf of `caller`, against what
    /// `from` granted to `caller`, and reports the movement. The grant is
    /// checked first, then the balance; the grant shrinks, by `value`, only
    /// once the balance has moved. A refusal leaves the ledger as it was.
    ///
    /// Where the movement goes through, both tables must have room for it:
    /// see `can_move` and `can_grant`.
    pub fn transfer_from(
        &mut self,
        caller: AccountId,
        from: AccountId,
        to: AccountId,
        value: Balance,
    ) -> (outcome: Result<Transfer>)
        requires
            old(self).wf(),
            old(self)@.allowance(from, caller) >= value && old(self)@.balance_of(from) >= value
                ==> old(self)@.can_move(from, to) && old(self)@.can_grant(from, caller),
        ensures
            final(self).wf(),
            final(self)@ == old(self)@.after_transfer_from(caller, from, to, value),
            outcome == old(self)@.transfer_from_outcome(caller, from, to, value),
            outcome matches Err(Error::InsufficientAllowance) <==> old(self)@.allowance(
                from,
                caller,
            ) < value,
            outcome matches Err(Error::InsufficientBalance) <==> old(self)@.allowance(
                from,
                caller,
            ) >= value && old(self)@.balance_of(from) < value,
            outcome is Err ==> final(self)@ == old(self)@,
    {
        let allowance: Balance = self.allowance(from, caller);
        if allowance < value {
            return Err(Error::InsufficientAllowance);
        }
        match self.inner_transfer(from, to, value) {
            Err(refusal) => Err(refusal),
            Ok(notice) => {
                self.allowances.insert(from, caller, allowance - value);
                assert(self@ =~~= old(self)@.after_transfer_from(caller, from, to, value));
                Ok(notice)
            },
        }
    }

    /// The movement that `transfer` and `transfer_from` share.
    fn inner_transfer(
        &mut self,
        from: AccountId,
        to: AccountId,
        value: Balance,
    ) -> (outcome: Result<Transfer>)
        requires
            old(self).wf(),
            old(self)@.balance_of(from) >= value ==> old(self)@.can_move(from, to),
        ensures
            final(self).wf(),
            final(self)@ == old(self)@.after_transfer(from, to, value),
            outcome == old(self)@.transfer_outcome(from, to, value),
    {
        let from_balance: Balance = self.balance_of(from);
        if from_balance < value {
            return Err(Error::InsufficientBalance);
        }
        proof {
            lemma_total_insert(old(self)@.balances, from, (from_balance - value) as Balance);
        }
        self.balances.insert(from, from_balance - value);
        let to_balance: Balance = self.balance_of(to);
        proof {
            if from != to && self@.balances.contains_key(to) {
                lemma_total_bounds_entry(self@.balances, to);
            }
            lemma_total_insert(self@.balances, to, (to_balance + value) as Balance);
        }
        // No overflow: the balances add up to the supply, and `from` has
        // just given up `value` of it.
        self.balances.insert(to, to_balance + value);
        assert(self@ =~~= old(self)@.after_transfer(from, to, value));
        Ok(Transfer { from: Some(from), to: Some(to), value })
    }
}

} // verus!
