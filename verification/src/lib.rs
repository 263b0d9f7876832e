//! An IOU (debt-note) ledger: balances of a fungible unit held by accounts,
//! delegated-spending allowances between account pairs, an atomic transfer
//! engine, and a debt tracker that records how much of an issued IOU is still
//! outstanding. Every successful mutation appends a domain event for the
//! hosting environment to index.

use vstd::prelude::*;

pub mod allowances;
pub mod balances;
pub mod events;
pub mod ledger;

verus! {

/// An account identifier: an opaque, comparable token for a participant.
/// The hosting environment maps its own native account identities onto these;
/// the ledger assumes no internal structure.
pub type AccountId = u64;

/// A non-negative quantity of the fungible unit.
pub type Balance = u128;

} // verus!
