//! The ledger as a mathematical value, and what each operation makes of it.

use crate::account::{AccountId, Balance};
use crate::events::{Approval, Error, Result, Transfer};
use crate::storage::has_room;
use crate::totals::total;
use vstd::prelude::*;

verus! {

/// The state of a ledger: the fixed supply and the two tables. A key that a
/// table lacks stands for the amount zero.
#[verifier::ext_equal]
pub struct LedgerView {
    pub total_supply: Balance,
    pub balances: Map<AccountId, Balance>,
    pub allowances: Map<(AccountId, AccountId), Balance>,
}

impl LedgerView {
    /// What `who` holds.
    pub open spec fn balance_of(self, who: AccountId) -> Balance {
        if self.balances.contains_key(who) {
            self.balances[who]
        } else {
            0
        }
    }

    /// What `spender` may still move out of `owner`'s balance.
    pub open spec fn allowance(self, owner: AccountId, spender: AccountId) -> Balance {
        if self.allowances.contains_key((owner, spender)) {
            self.allowances[(owner, spender)]
        } else {
            0
        }
    }

    /// Conservation: the balances add up to the total supply.
    pub open spec fn conserved(self) -> bool {
        &&& self.balances.dom().finite()
        &&& self.allowances.dom().finite()
        &&& total(self.balances) == self.total_supply
    }

    /// The ledger right after issuance: `issuer` holds the whole supply and
    /// nothing has been granted.
    pub open spec fn issued(supply: Balance, issuer: AccountId) -> LedgerView {
        LedgerView {
            total_supply: supply,
            balances: Map::empty().insert(issuer, supply),
            allowances: Map::empty(),
        }
    }

    /// The ledger after `value` went from `from` to `to`, for a source that
    /// holds at least `value`. Moving to oneself changes no balance; either
    /// way both accounts have an entry afterwards.
    pub open spec fn moved(self, from: AccountId, to: AccountId, value: Balance) -> LedgerView {
        let balances = if from == to {
            self.balances.insert(from, self.balance_of(from))
        } else {
            self.balances.insert(from, (self.balance_of(from) - value) as Balance).insert(
                to,
                (self.balance_of(to) + value) as Balance,
            )
        };
        LedgerView { balances, ..self }
    }

    /// The ledger after `owner` set `spender`'s allowance to `value`,
    /// whatever it was before.
    pub open spec fn approved(
        self,
        owner: AccountId,
        spender: AccountId,
        value: Balance,
    ) -> LedgerView {
        LedgerView { allowances: self.allowances.insert((owner, spender), value), ..self }
    }

    /// The ledger after `spender` used up `value` of `owner`'s grant.
    pub open spec fn spent(
        self,
        owner: AccountId,
        spender: AccountId,
        value: Balance,
    ) -> LedgerView {
        self.approved(owner, spender, (self.allowance(owner, spender) - value) as Balance)
    }

    /// Whether the balance table has room for the entries that a movement
    /// from `from` to `to` writes.
    pub open spec fn can_move(self, from: AccountId, to: AccountId) -> bool {
        &&& has_room(self.balances, from)
        &&& has_room(self.balances.insert(from, self.balance_of(from)), to)
    }

    /// Whether the allowance table has room for an entry of this pair.
    pub open spec fn can_grant(self, owner: AccountId, spender: AccountId) -> bool {
        has_room(self.allowances, (owner, spender))
    }

    /// What `transfer` answers.
    pub open spec fn transfer_outcome(
        self,
        caller: AccountId,
        to: AccountId,
        value: Balance,
    ) -> Result<Transfer> {
        if self.balance_of(caller) < value {
            Err(Error::InsufficientBalance)
        } else {
            Ok(Transfer::movement(caller, to, value))
        }
    }

    /// The ledger after `transfer`: unchanged where it was refused.
    pub open spec fn after_transfer(
        self,
        caller: AccountId,
        to: AccountId,
        value: Balance,
    ) -> LedgerView {
        if self.balance_of(caller) < value {
            self
        } else {
            self.moved(caller, to, value)
        }
    }

    /// What `approve` answers: it is never refused.
    pub open spec fn approve_outcome(
        self,
        caller: AccountId,
        spender: AccountId,
        value: Balance,
    ) -> Result<Approval> {
        Ok(Approval::grant(caller, spender, value))
    }

    /// The ledger after `approve`.
    pub open spec fn after_approve(
        self,
        caller: AccountId,
        spender: AccountId,
        value: Balance,
    ) -> LedgerView {
        self.approved(caller, spender, value)
    }

    /// What `transfer_from` answers. The allowance is looked at first, so
    /// where both the allowance and the balance fall short, the allowance is
    /// the reason given.
    pub open spec fn transfer_from_outcome(
        self,
        caller: AccountId,
        from: AccountId,
        to: AccountId,
        value: Balance,
    ) -> Result<Transfer> {
        if self.allowance(from, caller) < value {
            Err(Error::InsufficientAllowance)
        } else if self.balance_of(from) < value {
            Err(Error::InsufficientBalance)
        } else {
            Ok(Transfer::movement(from, to, value))
        }
    }

    /// The ledger after `transfer_from`: unchanged where it was refused,
    /// else the balance has moved and the grant is smaller by `value`.
    pub open spec fn after_transfer_from(
        self,
        caller: AccountId,
        from: AccountId,
        to: AccountId,
        value: Balance,
    ) -> LedgerView {
        if self.allowance(from, caller) < value || self.balance_of(from) < value {
            self
        } else {
            self.moved(from, to, value).spent(from, caller, value)
        }
    }
}

/// One operation asked of a ledger, with the caller that the host resolved.
pub enum Call {
    Transfer { caller: AccountId, to: AccountId, value: Balance },
    Approve { caller: AccountId, spender: AccountId, value: Balance },
    TransferFrom { caller: AccountId, from: AccountId, to: AccountId, value: Balance },
}

impl LedgerView {
    /// The ledger after one operation, granted or refused.
    pub open spec fn after(self, call: Call) -> LedgerView {
        match call {
            Call::Transfer { caller, to, value } => self.after_transfer(caller, to, value),
            Call::Approve { caller, spender, value } => self.after_approve(caller, spender, value),
            Call::TransferFrom { caller, from, to, value } => self.after_transfer_from(
                caller,
                from,
                to,
                value,
            ),
        }
    }

    /// The ledger after a run of operations, the first of `calls` first.
    pub open spec fn after_all(self, calls: Seq<Call>) -> LedgerView
        decreases calls.len(),
    {
        if calls.len() == 0 {
            self
        } else {
            self.after_all(calls.drop_last()).after(calls.last())
        }
    }
}

} // verus!
