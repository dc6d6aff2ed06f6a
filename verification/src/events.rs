//! What the ledger reports to its host: the notifications of completed
//! operations, and the reasons for refusing one.

use crate::account::{AccountId, Balance};
use vstd::prelude::*;

verus! {

/// Notice that `value` went from one account to another. At issuance there
/// is no source, and `from` is `None`.
#[derive(Debug, Clone, Copy, PartialEq, Eq)]
pub struct Transfer {
    pub from: Option<AccountId>,
    pub to: Option<AccountId>,
    pub value: Balance,
}

/// Notice that `owner` set what `spender` may move out of the owner's balance.
#[derive(Debug, Clone, Copy, PartialEq, Eq)]
pub struct Approval {
    pub owner: AccountId,
    pub spender: AccountId,
    pub value: Balance,
}

/// The two ways a ledger operation can be turned down.
#[derive(Debug, Clone, Copy, PartialEq, Eq)]
pub enum Error {
    /// The source account holds less than the amount to move.
    InsufficientBalance,
    /// The spender was granted less than the amount to move.
    InsufficientAllowance,
}

/// A specialised `Result` for ledger operations.
pub type Result<T> = core::result::Result<T, Error>;

impl Transfer {
    /// The notice for the creation of the whole supply in `issuer`'s account.
    pub open spec fn issuance(issuer: AccountId, supply: Balance) -> Transfer {
        Transfer { from: None, to: Some(issuer), value: supply }
    }

    /// The notice for `value` moving from `from` to `to`.
    pub open spec fn movement(from: AccountId, to: AccountId, value: Balance) -> Transfer {
        Transfer { from: Some(from), to: Some(to), value }
    }
}

impl Approval {
    /// The notice for `owner` granting `value` to `spender`.
    pub open spec fn grant(owner: AccountId, spender: AccountId, value: Balance) -> Approval {
        Approval { owner, spender, value }
    }
}

} // verus!
