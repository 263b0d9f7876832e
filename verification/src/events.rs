//! Domain events. Every successful mutation of the ledger appends exactly the
//! events its contract names to the ledger's append-only log; a failed
//! operation appends nothing. The hosting environment drains the log into its
//! own externally indexable store.

use vstd::prelude::*;

use crate::AccountId;
use crate::Balance;

verus! {

/// A movement of value. A mint (issuance) carries `from: None`; an ordinary
/// transfer names both accounts.
#[derive(Clone, Copy, Debug, PartialEq, Eq)]
pub struct Transfer {
    pub from: Option<AccountId>,
    pub to: Option<AccountId>,
    pub value: Balance,
}

/// An unconditional credit of fresh value into one account.
#[derive(Clone, Copy, Debug, PartialEq, Eq)]
pub struct Deposit {
    pub to: AccountId,
    pub value: Balance,
}

/// The issuance of a debt note: who owes, to whom, and the face amount.
#[derive(Clone, Copy, Debug, PartialEq, Eq)]
pub struct IouContract {
    pub issuer: AccountId,
    pub recipient: AccountId,
    pub amount_owed: Balance,
}

/// One entry of the ledger's event log.
#[derive(Clone, Copy, Debug, PartialEq, Eq)]
pub enum Event {
    Transfer(Transfer),
    Deposit(Deposit),
    IouContract(IouContract),
}

} // verus!
