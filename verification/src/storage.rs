//! The ledger's tables, kept in `ink_storage` containers.
//!
//! The contracts in this file are taken on trust: they say what the
//! containers' own code does, and Verus does not look into that code. Each
//! container sits in a private field of an opaque struct, so every value of
//! these types was made by `new` here and changed only through the methods
//! here: it is never bound to a contract storage key, and all its entries
//! live in memory.

use crate::account::{AccountId, Balance};
use ink_storage::collections::HashMap;
use ink_storage::Lazy;
use vstd::prelude::*;

verus! {

/// What `table` holds under `key`, if anything.
pub open spec fn lookup<K>(table: Map<K, Balance>, key: K) -> Option<Balance> {
    if table.contains_key(key) {
        Some(table[key])
    } else {
        None
    }
}

/// Whether a table with these entries can take an entry under `key`: the
/// containers count their entries in a `u32`.
pub open spec fn has_room<K>(table: Map<K, Balance>, key: K) -> bool {
    table.contains_key(key) || table.dom().len() < u32::MAX
}

/// Balances by holder, in an `ink_storage::collections::HashMap` keyed by
/// the holder's 32 bytes. Opaque to Verus, which is told what it holds by
/// `balance_entries`.
#[verifier::external_body]
pub struct BalanceTable {
    entries: HashMap<[u8; 32], Balance>,
}

/// The key-value pairs that a balance table holds, each key as the account
/// with those bytes.
pub uninterp spec fn balance_entries(table: BalanceTable) -> Map<AccountId, Balance>;

impl BalanceTable {
    /// `ink_storage::collections::HashMap::new`: a map without entries.
    #[verifier::external_body]
    pub(crate) fn new() -> (table: Self)
        ensures
            balance_entries(table) =~= Map::empty(),
    {
        BalanceTable { entries: HashMap::new() }
    }

    /// `ink_storage::collections::HashMap::len`: the number of key-value
    /// pairs in the map.
    #[verifier::external_body]
    pub(crate) fn len(&self) -> (n: u32)
        ensures
            n == balance_entries(*self).dom().len(),
    {
        self.entries.len()
    }

    /// `ink_storage::collections::HashMap::get`: the value stored under the
    /// key, `None` where the map has no such key. The map is left as it was.
    #[verifier::external_body]
    pub(crate) fn get(&self, who: &AccountId) -> (found: Option<Balance>)
        ensures
            found == lookup(balance_entries(*self), *who),
    {
        self.entries.get(&who.bytes).copied()
    }

    /// `ink_storage::collections::HashMap::insert`: afterwards the key maps
    /// to the new value and every other key is as before. A key that the map
    /// did not hold takes a new slot, and the map counts its slots in a
    /// `u32`: the call is made only where that count can still grow.
    #[verifier::external_body]
    pub(crate) fn insert(&mut self, who: AccountId, amount: Balance)
        requires
            balance_entries(*old(self)).dom().finite(),
            has_room(balance_entries(*old(self)), who),
        ensures
            balance_entries(*final(self)) == balance_entries(*old(self)).insert(who, amount),
    {
        self.entries.insert(who.bytes, amount);
    }
}

/// Allowances by owner and spender, in an `ink_storage::collections::HashMap`
/// keyed by the two accounts' bytes. Opaque to Verus, which is told what it
/// holds by `allowance_entries`.
#[verifier::external_body]
pub struct AllowanceTable {
    entries: HashMap<([u8; 32], [u8; 32]), Balance>,
}

/// The key-value pairs that an allowance table holds, each key as the pair
/// of accounts with those bytes, the owner first.
pub uninterp spec fn allowance_entries(table: AllowanceTable) -> Map<
    (AccountId, AccountId),
    Balance,
>;

impl AllowanceTable {
    /// `ink_storage::collections::HashMap::new`: a map without entries.
    #[verifier::external_body]
    pub(crate) fn new() -> (table: Self)
        ensures
            allowance_entries(table) =~= Map::empty(),
    {
        AllowanceTable { entries: HashMap::new() }
    }

    /// `ink_storage::collections::HashMap::len`: the number of key-value
    /// pairs in the map.
    #[verifier::external_body]
    pub(crate) fn len(&self) -> (n: u32)
        ensures
            n == allowance_entries(*self).dom().len(),
    {
        self.entries.len()
    }

    /// `ink_storage::collections::HashMap::get`: the value stored under the
    /// key, `None` where the map has no such key. The map is left as it was.
    #[verifier::external_body]
    pub(crate) fn get(&self, owner: &AccountId, spender: &AccountId) -> (found: Option<Balance>)
        ensures
            found == lookup(allowance_entries(*self), (*owner, *spender)),
    {
        self.entries.get(&(owner.bytes, spender.bytes)).copied()
    }

    /// `ink_storage::collections::HashMap::insert`: afterwards the key maps
    /// to the new value and every other key is as before. A key that the map
    /// did not hold takes a new slot, and the map counts its slots in a
    /// `u32`: the call is made only where that count can still grow.
    #[verifier::external_body]
    pub(crate) fn insert(&mut self, owner: AccountId, spender: AccountId, amount: Balance)
        requires
            allowance_entries(*old(self)).dom().finite(),
            has_room(allowance_entries(*old(self)), (owner, spender)),
        ensures
            allowance_entries(*final(self)) == allowance_entries(*old(self)).insert(
                (owner, spender),
                amount,
            ),
    {
        self.entries.insert((owner.bytes, spender.bytes), amount);
    }
}

/// The total supply, in an `ink_storage::Lazy` cell. Opaque to Verus, which
/// is told what it holds by `supply_held`.
#[verifier::external_body]
pub struct SupplyCell {
    cell: Lazy<Balance>,
}

/// The amount that a supply cell holds.
pub uninterp spec fn supply_held(cell: SupplyCell) -> Balance;

impl SupplyCell {
    /// `ink_storage::Lazy::new`: a cell that holds the value from the start.
    #[verifier::external_body]
    pub(crate) fn new(amount: Balance) -> (cell: Self)
        ensures
            supply_held(cell) == amount,
    {
        SupplyCell { cell: Lazy::new(amount) }
    }

    /// `ink_storage::Lazy::get`: the value that the cell holds. A cell made
    /// by `new` has it at hand and loads nothing.
    #[verifier::external_body]
    pub(crate) fn get(&self) -> (amount: Balance)
        ensures
            amount == supply_held(*self),
    {
        *Lazy::get(&self.cell)
    }
}

} // verus!
