//! The yield-bearing arena: players stake an entry fee that is parked in an
//! RWA vault, play commit-reveal coin-flip rounds under minority-wins rules,
//! and the last survivor claims principal plus accrued yield.

pub mod contract;
pub mod eliminations;
pub mod laws;
pub mod events;
pub mod resolution;
pub mod storage;
pub mod state_machine;
pub mod types;
