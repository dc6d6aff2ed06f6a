//! The sum of the amounts in a table, and how one entry changes it.

use crate::account::Balance;
use vstd::prelude::*;

verus! {

/// The sum of all amounts that a finite table holds.
pub open spec fn total<K>(table: Map<K, Balance>) -> nat
    decreases table.dom().len(),
    when table.dom().finite()
{
    if table.dom().len() == 0 {
        0
    } else {
        let key = table.dom().choose();
        table[key] as nat + total(table.remove(key))
    }
}

/// A table without entries sums to zero.
pub proof fn lemma_total_empty<K>()
    ensures
        total(Map::<K, Balance>::empty()) == 0,
{
}

/// Any one entry can be taken out of the sum first.
pub proof fn lemma_total_remove<K>(table: Map<K, Balance>, key: K)
    requires
        table.dom().finite(),
        table.contains_key(key),
    ensures
        total(table) == table[key] + total(table.remove(key)),
    decreases table.dom().len(),
{
    let first = table.dom().choose();
    if first != key {
        lemma_total_remove(table.remove(first), key);
        lemma_total_remove(table.remove(key), first);
        assert(table.remove(first).remove(key) =~= table.remove(key).remove(first));
    }
}

/// Writing an entry changes the sum by the difference between the new
/// amount and what the key held before (nothing, where it was absent).
pub proof fn lemma_total_insert<K>(table: Map<K, Balance>, key: K, amount: Balance)
    requires
        table.dom().finite(),
    ensures
        total(table.insert(key, amount)) + (if table.contains_key(key) {
            table[key] as int
        } else {
            0
        }) == total(table) + amount,
{
    let written = table.insert(key, amount);
    lemma_total_remove(written, key);
    assert(written.remove(key) =~= table.remove(key));
    if table.contains_key(key) {
        lemma_total_remove(table, key);
    } else {
        assert(table.remove(key) =~= table);
    }
}

/// No entry exceeds the sum.
pub proof fn lemma_total_bounds_entry<K>(table: Map<K, Balance>, key: K)
    requires
        table.dom().finite(),
        table.contains_key(key),
    ensures
        table[key] <= total(table),
{
    lemma_total_remove(table, key);
}

/// No two entries together exceed the sum.
pub proof fn lemma_total_bounds_pair<K>(table: Map<K, Balance>, one: K, other: K)
    requires
        table.dom().finite(),
        table.contains_key(one),
        table.contains_key(other),
        one != other,
    ensures
        table[one] + table[other] <= total(table),
{
    lemma_total_remove(table, one);
    lemma_total_remove(table.remove(one), other);
}

} // verus!
