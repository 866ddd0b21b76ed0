//! Values stored and exchanged by the fee arena.

use vstd::prelude::*;

use crate::AccountId;

verus! {

/// Aggregated statistics across all arenas, maintained incrementally.
#[derive(Clone, Copy, PartialEq, Eq, Structural, Debug)]
pub struct GlobalStats {
    /// Total arenas ever initialized.
    pub total_arenas: u32,
    /// Players currently alive across all in-progress arenas.
    pub live_survivors: u32,
    /// Total prize pool ever accumulated across all arenas (in stroops).
    pub global_pool_total: i128,
}

impl GlobalStats {
    /// Statistics before any arena exists: all zero.
    pub fn empty() -> (s: GlobalStats)
        ensures
            s == (GlobalStats { total_arenas: 0, live_survivors: 0, global_pool_total: 0 }),
    {
        GlobalStats { total_arenas: 0, live_survivors: 0, global_pool_total: 0 }
    }
}

/// A yield deposit received from an RWA adapter.
#[derive(Debug)]
pub struct RwaYieldRecord {
    /// Unique record identifier (monotonic counter, starting at 1).
    pub id: u64,
    /// The RWA adapter contract.
    pub adapter: AccountId,
    /// Amount of yield deposited into the prize pool (in stroops).
    pub yield_amount: i128,
    /// Ledger sequence at which the yield was received.
    pub received_at: u32,
    /// Human-readable source description (e.g. "Treasury vault A").
    pub source_label: String,
}

impl Clone for RwaYieldRecord {
    fn clone(&self) -> (r: Self)
        ensures
            r == *self,
    {
        RwaYieldRecord {
            id: self.id,
            adapter: self.adapter,
            yield_amount: self.yield_amount,
            received_at: self.received_at,
            source_label: self.source_label.clone(),
        }
    }
}

/// Lifecycle state of a fee arena.
#[derive(Clone, Copy, PartialEq, Eq, Structural, Debug)]
pub enum GameState {
    Open,
    InProgress,
    Finished,
    Cancelled,
}

/// Configuration and lifecycle record of a fee arena.
#[derive(Clone, Copy, PartialEq, Eq, Structural, Debug)]
pub struct ArenaConfig {
    pub admin: AccountId,
    pub token: AccountId,
    pub entry_fee: i128,
    pub max_players: u32,
    pub join_deadline: u64,
    pub state: GameState,
    pub paused: bool,
    pub player_count: u32,
    pub treasury_address: AccountId,
    pub last_creation_timestamp: u64,
    pub creation_cooldown_seconds: u64,
    /// Amount of stake the creator has deposited (in stroops).
    pub creator_stake: i128,
    /// Slash rate in basis points applied to the creator stake when it is
    /// withdrawn while the game is not finished. At most 10_000 (100%).
    pub slash_rate_bps: u32,
}

/// A player's coin-flip choice for a round.
#[derive(Clone, Copy, PartialEq, Eq, Structural, Debug)]
pub enum Choice {
    Heads,
    Tails,
}

/// Outcome of a resolved round.
#[derive(Clone, Copy, PartialEq, Eq, Structural, Debug)]
pub struct RoundResult {
    pub round: u32,
    pub eliminated: u32,
    pub survivors: u32,
}

/// Long-running statistics of a player.
#[derive(Clone, Copy, PartialEq, Eq, Structural, Debug)]
pub struct PlayerProfile {
    pub games_played: u32,
    pub games_won: u32,
    pub total_earnings: i128,
    pub survival_streak: u32,
    pub best_streak: u32,
}

impl PlayerProfile {
    /// The profile of a player with no history: all zero.
    pub fn empty() -> (p: PlayerProfile)
        ensures
            p == (PlayerProfile {
                games_played: 0,
                games_won: 0,
                total_earnings: 0,
                survival_streak: 0,
                best_streak: 0,
            }),
    {
        PlayerProfile {
            games_played: 0,
            games_won: 0,
            total_earnings: 0,
            survival_streak: 0,
            best_streak: 0,
        }
    }
}

} // verus!
