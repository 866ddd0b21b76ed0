//! Values stored and exchanged by the yield arena.

use vstd::prelude::*;

use crate::AccountId;

verus! {

/// Lifecycle state of an arena.
///
/// Transitions: Open → Active → Open (next round) or Finished → Settled;
/// Open → Cancelled when the admin cancels before play.
#[derive(Clone, Copy, PartialEq, Eq, Structural, Debug)]
pub enum GameState {
    Open,
    Active,
    Finished,
    /// Admin cancelled before the game started; all entry fees refunded.
    Cancelled,
    /// Prize has been distributed to the winner; arena is fully resolved.
    Settled,
}

/// A player's coin-flip choice for a round.
#[derive(Clone, Copy, PartialEq, Eq, Structural, Debug)]
pub enum Choice {
    Heads,
    Tails,
}

/// The byte that stands for a choice in the commitment preimage.
pub open spec fn choice_byte(c: Choice) -> u8 {
    match c {
        Choice::Heads => 0u8,
        Choice::Tails => 1u8,
    }
}

impl Choice {
    /// Returns the canonical byte representation used in the commitment hash.
    pub fn to_byte(self) -> (b: u8)
        ensures
            b == choice_byte(self),
    {
        match self {
            Choice::Heads => 0,
            Choice::Tails => 1,
        }
    }
}

/// Top-level arena configuration.
#[derive(Clone, Copy, PartialEq, Eq, Structural, Debug)]
pub struct ArenaConfig {
    pub admin: AccountId,
    pub stake_token: AccountId,
    /// The yield-bearing RWA vault adapter contract.
    pub yield_vault: AccountId,
    pub entry_fee: i128,
    pub state: GameState,
    /// Emergency circuit breaker: while set, gameplay entry points reject.
    pub paused: bool,
    /// Number of players that have ever joined this arena.
    pub player_count: u32,
    /// Cumulative yield accrued across all resolved rounds.
    pub cumulative_yield: i128,
    /// Ledger timestamp (seconds) from which reveals are accepted.
    pub commit_deadline: u64,
    /// Number of completed rounds so far.
    pub round_count: u32,
    /// Oracle contract supplying the yield rate in basis points.
    pub oracle_contract: AccountId,
}

/// A pending admin transfer proposal.
#[derive(Clone, Copy, PartialEq, Eq, Structural, Debug)]
pub struct PendingAdmin {
    pub new_admin: AccountId,
}

/// A two-step upgrade proposal with a timelock.
#[derive(Clone, Copy, Debug)]
pub struct PendingUpgrade {
    pub wasm_hash: [u8; 32],
    pub proposed_at: u64,
}

/// Per-player state, keyed by the player.
#[derive(Clone, Copy, PartialEq, Eq, Structural, Debug)]
pub struct PlayerState {
    /// Whether the player is still in the game (not yet eliminated).
    pub active: bool,
    /// Number of rounds the player has survived so far.
    pub rounds_survived: u32,
}

impl PlayerState {
    /// The state of an account that never joined: inactive, no rounds.
    pub fn absent() -> (s: PlayerState)
        ensures
            s == (PlayerState { active: false, rounds_survived: 0 }),
    {
        PlayerState { active: false, rounds_survived: 0 }
    }
}

/// Per-round yield snapshot, keyed by round number.
#[derive(Clone, Copy, PartialEq, Eq, Structural, Debug)]
pub struct YieldSnapshot {
    pub round: u32,
    pub rate_bps: u32,
    pub accrued: i128,
}

/// Per-round resolution metadata.
#[derive(Clone, Copy, PartialEq, Eq, Structural, Debug)]
pub struct RoundResult {
    pub round: u32,
    pub eliminated: u32,
    pub survivors: u32,
    pub yield_snapshot: YieldSnapshot,
}

/// A single entry in the leaderboard.
#[derive(Clone, Copy, PartialEq, Eq, Structural, Debug)]
pub struct LeaderboardEntry {
    pub player: AccountId,
    pub rounds_survived: u32,
}

/// Error codes returned by arena entry points. `code` gives the number that
/// the contract reports for each.
#[derive(Clone, Copy, PartialEq, Eq, Structural, Debug)]
pub enum ArenaError {
    Unauthorized,
    CannotCancelStartedGame,
    NotInitialised,
    RoundNotActive,
    RoundNotStarted,
    GracePeriodNotElapsed,
    InvalidReveal,
    MissingCommitment,
    ChoiceAlreadyRevealed,
    AlreadyInitialized,
    GameNotFinished,
    PrizeAlreadyClaimed,
    PlayerEliminated,
    NoPendingAdmin,
    InvalidVaultAddress,
    ContractPaused,
    InvalidGameState,
    NotInitialized,
    NotEnoughPlayers,
    PlayerBanned,
    CreatorCannotJoin,
    ArenaFull,
    InvalidPlayerLimits,
    ReentrantCall,
    RefundAlreadyClaimed,
    ArenaNotCancelled,
    NotAPlayer,
    DeadlineTooSoon,
    AlreadyJoined,
    UpgradeTimelockPending,
    NoPendingUpgrade,
}

/// The numeric contract error code of each error, as published on chain.
pub open spec fn error_code(e: ArenaError) -> u32 {
    match e {
        ArenaError::Unauthorized => 1,
        ArenaError::CannotCancelStartedGame => 2,
        ArenaError::NotInitialised => 3,
        ArenaError::RoundNotActive => 4,
        ArenaError::RoundNotStarted => 5,
        ArenaError::GracePeriodNotElapsed => 6,
        ArenaError::InvalidReveal => 7,
        ArenaError::MissingCommitment => 8,
        ArenaError::ChoiceAlreadyRevealed => 9,
        ArenaError::AlreadyInitialized => 10,
        ArenaError::GameNotFinished => 11,
        ArenaError::PrizeAlreadyClaimed => 12,
        ArenaError::PlayerEliminated => 13,
        ArenaError::NoPendingAdmin => 14,
        ArenaError::InvalidVaultAddress => 15,
        ArenaError::ContractPaused => 16,
        ArenaError::InvalidGameState => 17,
        ArenaError::NotInitialized => 18,
        ArenaError::NotEnoughPlayers => 19,
        ArenaError::PlayerBanned => 20,
        ArenaError::CreatorCannotJoin => 21,
        ArenaError::ArenaFull => 22,
        ArenaError::InvalidPlayerLimits => 23,
        ArenaError::ReentrantCall => 24,
        ArenaError::RefundAlreadyClaimed => 25,
        ArenaError::ArenaNotCancelled => 26,
        ArenaError::NotAPlayer => 27,
        ArenaError::DeadlineTooSoon => 28,
        ArenaError::AlreadyJoined => 29,
        ArenaError::UpgradeTimelockPending => 30,
        ArenaError::NoPendingUpgrade => 31,
    }
}

impl ArenaError {
    /// The numeric contract error code of this error.
    pub fn code(&self) -> (c: u32)
        ensures
            c == error_code(*self),
            1 <= c <= 31,
    {
        match self {
            ArenaError::Unauthorized => 1,
            ArenaError::CannotCancelStartedGame => 2,
            ArenaError::NotInitialised => 3,
            ArenaError::RoundNotActive => 4,
            ArenaError::RoundNotStarted => 5,
            ArenaError::GracePeriodNotElapsed => 6,
            ArenaError::InvalidReveal => 7,
            ArenaError::MissingCommitment => 8,
            ArenaError::ChoiceAlreadyRevealed => 9,
            ArenaError::AlreadyInitialized => 10,
            ArenaError::GameNotFinished => 11,
            ArenaError::PrizeAlreadyClaimed => 12,
            ArenaError::PlayerEliminated => 13,
            ArenaError::NoPendingAdmin => 14,
            ArenaError::InvalidVaultAddress => 15,
            ArenaError::ContractPaused => 16,
            ArenaError::InvalidGameState => 17,
            ArenaError::NotInitialized => 18,
            ArenaError::NotEnoughPlayers => 19,
            ArenaError::PlayerBanned => 20,
            ArenaError::CreatorCannotJoin => 21,
            ArenaError::ArenaFull => 22,
            ArenaError::InvalidPlayerLimits => 23,
            ArenaError::ReentrantCall => 24,
            ArenaError::RefundAlreadyClaimed => 25,
            ArenaError::ArenaNotCancelled => 26,
            ArenaError::NotAPlayer => 27,
            ArenaError::DeadlineTooSoon => 28,
            ArenaError::AlreadyJoined => 29,
            ArenaError::UpgradeTimelockPending => 30,
            ArenaError::NoPendingUpgrade => 31,
        }
    }
}

} // verus!
