//! The fee arena: players pay an entry fee before a join deadline, play
//! minority-wins rounds, and the winner takes the pot minus a platform fee.
//! The arena creator may post a stake that is slashed if withdrawn while the
//! game is still running.

pub mod contract;
pub mod errors;
pub mod events;
pub mod laws;
pub mod resolution;
pub mod storage;
pub mod types;
pub mod validation;
