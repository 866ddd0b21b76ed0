//! Verified game logic of the Inverse Arena contracts: a minority-wins
//! elimination game whose entry fees earn yield while the game runs.
//!
//! Every contract is modelled as a state value with the entry points as
//! transitions on it. The host plumbing (ledger storage, authorization,
//! cross-contract calls, event publication) stays outside the library: a
//! transition receives the ledger time and the results of cross-contract
//! reads as plain arguments, and hands back the events and token movements
//! that the host has to perform.

use vstd::prelude::*;

pub mod admin_transfer;
pub mod digest;
pub mod factory;
pub mod fee_arena;
pub mod num;
pub mod oracle;
pub mod payout;
pub mod rwa_adapter;
pub mod staking;
pub mod yield_arena;

verus! {

/// An account or contract identity. The host keeps the mapping between its
/// own address values and these identifiers; two identities are the same
/// account exactly when the identifiers are equal.
pub type AccountId = u64;

/// A token movement that a contract asks the host to perform between its
/// own account and another one.
#[derive(Clone, Copy, PartialEq, Eq, Structural, Debug)]
pub enum TokenTransfer {
    /// Move `amount` from `from` into the contract.
    In { from: AccountId, amount: i128 },
    /// Move `amount` from the contract to `to`.
    Out { to: AccountId, amount: i128 },
}

} // verus!
