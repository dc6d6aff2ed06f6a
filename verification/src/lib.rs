//! A fixed-supply token ledger: balances, allowances, and the three
//! operations that move them, each with its contract.
//!
//! - `account`: who holds, and how much.
//! - `events`: what the ledger reports of a completed operation, and why
//!   it refuses one.
//! - `model`: the ledger as a mathematical value, and what each operation
//!   makes of it.
//! - `totals`: the sum of a table, by which conservation is stated.
//! - `storage`: the tables themselves, in `ink_storage` containers.
//! - `ledger`: the ledger, its queries and its operations.
//! - `laws`: what holds of every ledger after every run of operations.
//!
//! The ledger does not find out who calls and emits nothing: its host hands
//! each operation the caller and takes the notice that comes back.

pub mod account;
pub mod events;
pub mod laws;
pub mod ledger;
pub mod model;
pub mod storage;
pub mod totals;

pub use crate::account::{AccountId, Balance};
pub use crate::events::{Approval, Error, Transfer};
pub use crate::ledger::Erc20;
