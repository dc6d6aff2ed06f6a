//! What holds of the ledger whatever is asked of it, in whatever order.

use crate::account::{AccountId, Balance};
use crate::events::{Error, Transfer};
use crate::model::{Call, LedgerView};
use crate::totals::{
    lemma_total_bounds_entry, lemma_total_bounds_pair, lemma_total_empty, lemma_total_insert,
};
use vstd::prelude::*;

verus! {

/// Issuance conserves: the one balance it creates is the whole supply.
pub proof fn lemma_issued_conserved(supply: Balance, issuer: AccountId)
    ensures
        LedgerView::issued(supply, issuer).conserved(),
{
    lemma_total_empty::<AccountId>();
    lemma_total_insert(Map::<AccountId, Balance>::empty(), issuer, supply);
}

/// No account holds more than the supply, and none less than nothing.
pub proof fn lemma_balance_within_supply(ledger: LedgerView, who: AccountId)
    requires
        ledger.conserved(),
    ensures
        0 <= ledger.balance_of(who) <= ledger.total_supply,
{
    if ledger.balances.contains_key(who) {
        lemma_total_bounds_entry(ledger.balances, who);
    }
}

/// A movement that the source can afford takes `value` from the source and
/// gives it to the destination, exactly: no balance wraps around, no other
/// account changes, and a movement to oneself changes nothing.
pub proof fn lemma_moved_balances(
    ledger: LedgerView,
    from: AccountId,
    to: AccountId,
    value: Balance,
    who: AccountId,
)
    requires
        ledger.conserved(),
        ledger.balance_of(from) >= value,
    ensures
        from != to && who == from ==> ledger.moved(from, to, value).balance_of(who)
            == ledger.balance_of(who) - value,
        from != to && who == to ==> ledger.moved(from, to, value).balance_of(who)
            == ledger.balance_of(who) + value,
        from == to || (who != from && who != to) ==> ledger.moved(from, to, value).balance_of(who)
            == ledger.balance_of(who),
{
    if from != to && ledger.balances.contains_key(to) {
        if ledger.balances.contains_key(from) {
            lemma_total_bounds_pair(ledger.balances, from, to);
        } else {
            lemma_total_bounds_entry(ledger.balances, to);
        }
    }
}

/// A movement that the source can afford conserves.
pub proof fn lemma_moved_conserved(
    ledger: LedgerView,
    from: AccountId,
    to: AccountId,
    value: Balance,
)
    requires
        ledger.conserved(),
        ledger.balance_of(from) >= value,
    ensures
        ledger.moved(from, to, value).conserved(),
{
    if from == to {
        lemma_total_insert(ledger.balances, from, ledger.balance_of(from));
    } else {
        let debited = ledger.balances.insert(from, (ledger.balance_of(from) - value) as Balance);
        lemma_total_insert(ledger.balances, from, (ledger.balance_of(from) - value) as Balance);
        if debited.contains_key(to) {
            lemma_total_bounds_entry(debited, to);
        }
        lemma_total_insert(debited, to, (ledger.balance_of(to) + value) as Balance);
    }
}

/// Every operation conserves and leaves the supply as issued.
pub proof fn lemma_call_conserves(ledger: LedgerView, call: Call)
    requires
        ledger.conserved(),
    ensures
        ledger.after(call).conserved(),
        ledger.after(call).total_supply == ledger.total_supply,
{
    match call {
        Call::Transfer { caller, to, value } => {
            if ledger.balance_of(caller) >= value {
                lemma_moved_conserved(ledger, caller, to, value);
            }
        },
        Call::Approve { caller, spender, value } => {},
        Call::TransferFrom { caller, from, to, value } => {
            if ledger.allowance(from, caller) >= value && ledger.balance_of(from) >= value {
                lemma_moved_conserved(ledger, from, to, value);
            }
        },
    }
}

/// Conservation in every reachable state: after issuance and any run of
/// operations the balances add up to the supply that was issued.
pub proof fn lemma_reachable_conserved(supply: Balance, issuer: AccountId, calls: Seq<Call>)
    ensures
        LedgerView::issued(supply, issuer).after_all(calls).conserved(),
        LedgerView::issued(supply, issuer).after_all(calls).total_supply == supply,
    decreases calls.len(),
{
    if calls.len() == 0 {
        lemma_issued_conserved(supply, issuer);
    } else {
        lemma_reachable_conserved(supply, issuer, calls.drop_last());
        lemma_call_conserves(
            LedgerView::issued(supply, issuer).after_all(calls.drop_last()),
            calls.last(),
        );
    }
}

/// In every reachable state every balance lies between zero and the supply
/// that was issued, whatever the callers tried.
pub proof fn lemma_reachable_balances_bounded(
    supply: Balance,
    issuer: AccountId,
    calls: Seq<Call>,
    who: AccountId,
)
    ensures
        0 <= LedgerView::issued(supply, issuer).after_all(calls).balance_of(who) <= supply,
{
    lemma_reachable_conserved(supply, issuer, calls);
    lemma_balance_within_supply(LedgerView::issued(supply, issuer).after_all(calls), who);
}

/// Right after `approve` the allowance is the amount just set, whatever
/// was granted before.
pub proof fn lemma_approve_sets_allowance(
    ledger: LedgerView,
    caller: AccountId,
    spender: AccountId,
    value: Balance,
)
    ensures
        ledger.after_approve(caller, spender, value).allowance(caller, spender) == value,
{
}

/// `approve` touches no grant but the one it sets, and no balance.
pub proof fn lemma_approve_touches_one_grant(
    ledger: LedgerView,
    caller: AccountId,
    spender: AccountId,
    value: Balance,
    owner: AccountId,
    other: AccountId,
    who: AccountId,
)
    ensures
        (owner, other) != (caller, spender) ==> ledger.after_approve(
            caller,
            spender,
            value,
        ).allowance(owner, other) == ledger.allowance(owner, other),
        ledger.after_approve(caller, spender, value).balance_of(who) == ledger.balance_of(who),
{
}

/// A direct transfer, granted or refused, touches no allowance.
pub proof fn lemma_transfer_keeps_allowances(
    ledger: LedgerView,
    caller: AccountId,
    to: AccountId,
    value: Balance,
    owner: AccountId,
    spender: AccountId,
)
    ensures
        ledger.after_transfer(caller, to, value).allowance(owner, spender) == ledger.allowance(
            owner,
            spender,
        ),
{
}

/// A refused operation leaves the ledger as it was. In particular a
/// `transfer_from` that fails for want of balance leaves the allowance of
/// its spender untouched.
pub proof fn lemma_refusal_changes_nothing(
    ledger: LedgerView,
    caller: AccountId,
    from: AccountId,
    to: AccountId,
    value: Balance,
)
    ensures
        ledger.transfer_outcome(caller, to, value) is Err ==> ledger.after_transfer(
            caller,
            to,
            value,
        ) == ledger,
        ledger.transfer_from_outcome(caller, from, to, value) is Err ==> ledger.after_transfer_from(
            caller,
            from,
            to,
            value,
        ) == ledger,
        ledger.transfer_from_outcome(caller, from, to, value) matches Err(
            Error::InsufficientBalance,
        ) ==> ledger.after_transfer_from(caller, from, to, value).allowance(from, caller)
            == ledger.allowance(from, caller),
{
}

/// A `transfer_from` that goes through lowers the allowance of its spender
/// by exactly `value` and leaves every other allowance as it was.
pub proof fn lemma_transfer_from_spends_allowance(
    ledger: LedgerView,
    caller: AccountId,
    from: AccountId,
    to: AccountId,
    value: Balance,
    owner: AccountId,
    spender: AccountId,
)
    requires
        ledger.transfer_from_outcome(caller, from, to, value) is Ok,
    ensures
        ledger.after_transfer_from(caller, from, to, value).allowance(from, caller)
            == ledger.allowance(from, caller) - value,
        (owner, spender) != (from, caller) ==> ledger.after_transfer_from(
            caller,
            from,
            to,
            value,
        ).allowance(owner, spender) == ledger.allowance(owner, spender),
{
}

/// A transfer to oneself of no more than one holds changes no balance, and
/// is still reported as a transfer.
pub proof fn lemma_self_transfer(
    ledger: LedgerView,
    caller: AccountId,
    value: Balance,
    who: AccountId,
)
    requires
        value <= ledger.balance_of(caller),
    ensures
        ledger.after_transfer(caller, caller, value).balance_of(who) == ledger.balance_of(who),
        ledger.transfer_outcome(caller, caller, value) matches Ok(notice) && notice
            == Transfer::movement(caller, caller, value),
{
}

} // verus!
