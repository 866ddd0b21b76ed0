//! Error codes of the fee arena.

use vstd::prelude::*;

verus! {

/// Errors returned by fee arena entry points. `code` gives the number that
/// the contract reports for each.
#[derive(Clone, Copy, PartialEq, Eq, Structural, Debug)]
pub enum ArenaError {
    /// Arena configuration not found.
    ConfigNotFound,
    /// Entry fee (or another amount) must be positive.
    InvalidEntryFee,
    /// Deadline must be in the future.
    DeadlineTooSoon,
    /// Arena has already started or finished.
    ArenaAlreadyStarted,
    /// Invalid state transition.
    InvalidStateTransition,
    /// Arena is full.
    ArenaFull,
    /// Join deadline has passed.
    DeadlinePassed,
    /// Player has been eliminated.
    PlayerEliminated,
    /// Prize already claimed.
    PrizeAlreadyClaimed,
    /// Game not finished.
    GameNotFinished,
    /// Not a registered player.
    NotAPlayer,
    /// Token transfer failed.
    TransferFailed,
    /// Insufficient token balance.
    InsufficientBalance,
    /// Refund already claimed.
    RefundAlreadyClaimed,
    /// Arena is not cancelled.
    ArenaNotCancelled,
    /// No stake to withdraw.
    NoStakeToWithdraw,
    /// Stake already deposited.
    StakeAlreadyDeposited,
    /// Cooldown period between arena creations has not elapsed.
    CooldownNotElapsed,
    /// Treasury address has not been set.
    TreasuryNotSet,
    /// Contract is paused; state-mutating operations blocked.
    ContractPaused,
    /// Slash rate in bps cannot exceed 10000 (100%).
    InvalidSlashRate,
    /// Stake amount must be positive.
    InvalidStakeAmount,
    /// Arena is not in a terminal state (Finished or Cancelled) for cleanup.
    ArenaNotFinished,
}

/// The numeric contract error code of each error.
pub open spec fn error_code(e: ArenaError) -> u32 {
    match e {
        ArenaError::ConfigNotFound => 1,
        ArenaError::InvalidEntryFee => 2,
        ArenaError::DeadlineTooSoon => 3,
        ArenaError::ArenaAlreadyStarted => 4,
        ArenaError::InvalidStateTransition => 5,
        ArenaError::ArenaFull => 6,
        ArenaError::DeadlinePassed => 7,
        ArenaError::PlayerEliminated => 8,
        ArenaError::PrizeAlreadyClaimed => 9,
        ArenaError::GameNotFinished => 10,
        ArenaError::NotAPlayer => 11,
        ArenaError::TransferFailed => 12,
        ArenaError::InsufficientBalance => 13,
        ArenaError::RefundAlreadyClaimed => 14,
        ArenaError::ArenaNotCancelled => 15,
        ArenaError::NoStakeToWithdraw => 16,
        ArenaError::StakeAlreadyDeposited => 17,
        ArenaError::CooldownNotElapsed => 18,
        ArenaError::TreasuryNotSet => 19,
        ArenaError::ContractPaused => 20,
        ArenaError::InvalidSlashRate => 22,
        ArenaError::InvalidStakeAmount => 23,
        ArenaError::ArenaNotFinished => 21,
    }
}

impl ArenaError {
    /// The numeric contract error code of this error.
    pub fn code(&self) -> (c: u32)
        ensures
            c == error_code(*self),
    {
        match self {
            ArenaError::ConfigNotFound => 1,
            ArenaError::InvalidEntryFee => 2,
            ArenaError::DeadlineTooSoon => 3,
            ArenaError::ArenaAlreadyStarted => 4,
            ArenaError::InvalidStateTransition => 5,
            ArenaError::ArenaFull => 6,
            ArenaError::DeadlinePassed => 7,
            ArenaError::PlayerEliminated => 8,
            ArenaError::PrizeAlreadyClaimed => 9,
            ArenaError::GameNotFinished => 10,
            ArenaError::NotAPlayer => 11,
            ArenaError::TransferFailed => 12,
            ArenaError::InsufficientBalance => 13,
            ArenaError::RefundAlreadyClaimed => 14,
            ArenaError::ArenaNotCancelled => 15,
            ArenaError::NoStakeToWithdraw => 16,
            ArenaError::StakeAlreadyDeposited => 17,
            ArenaError::CooldownNotElapsed => 18,
            ArenaError::TreasuryNotSet => 19,
            ArenaError::ContractPaused => 20,
            ArenaError::InvalidSlashRate => 22,
            ArenaError::InvalidStakeAmount => 23,
            ArenaError::ArenaNotFinished => 21,
        }
    }
}

} // verus!
