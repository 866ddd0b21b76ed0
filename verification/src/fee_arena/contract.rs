//! The entry points of the fee arena, except round resolution.

use vstd::prelude::*;

use super::errors::ArenaError;
use super::events::{ArenaEvent, ArenaEvents, Transfer};
use super::storage::{is_active, without_players, ArenaStorage, ArenaStorageView, without_id};
use super::types::{ArenaConfig, Choice, GameState, GlobalStats, RwaYieldRecord};
use super::validation::{validate_deadline, validate_entry_fee, MIN_ENTRY_FEE};
use crate::num::{clamp_i128, div_toward_zero, saturating_add_i128};
use crate::AccountId;

verus! {

/// The platform fee taken from the pot, in basis points (10%).
pub const PLATFORM_FEE_BP: i128 = 1000;

/// The length of a round, in seconds.
pub const ROUND_DURATION_SECONDS: u64 = 86_400;

/// The slash rate of a new arena, in basis points (50%).
pub const DEFAULT_SLASH_RATE_BPS: u32 = 5000;

/// One fee arena: its persistent state, the events it has published and the
/// token movements it has requested, both in order.
#[derive(Clone)]
pub struct ArenaContract {
    pub storage: ArenaStorage,
    pub events: ArenaEvents,
    pub transfers: Vec<Transfer>,
}

/// The mathematical view of a fee arena.
pub struct ArenaContractView {
    pub storage: ArenaStorageView,
    pub events: Seq<ArenaEvent>,
    pub transfers: Seq<Transfer>,
}

impl View for ArenaContract {
    type V = ArenaContractView;

    open spec fn view(&self) -> ArenaContractView {
        ArenaContractView {
            storage: self.storage@,
            events: self.events.log@,
            transfers: self.transfers@,
        }
    }
}

/// `a - b` saturating at zero.
pub open spec fn sub_or_zero(a: u64, b: u64) -> u64 {
    if a < b {
        0
    } else {
        (a - b) as u64
    }
}

/// Why `initialize` would refuse, if it would.
pub open spec fn initialize_rejection(
    s: ArenaStorageView,
    admin: AccountId,
    entry_fee: i128,
    join_deadline: u64,
    now: u64,
) -> Option<ArenaError> {
    if entry_fee < MIN_ENTRY_FEE {
        Some(ArenaError::InvalidEntryFee)
    } else if join_deadline <= now {
        Some(ArenaError::DeadlineTooSoon)
    } else if s.config matches Some(e) && admin != e.admin && e.creation_cooldown_seconds > 0
        && sub_or_zero(now, e.last_creation_timestamp) < e.creation_cooldown_seconds {
        Some(ArenaError::CooldownNotElapsed)
    } else {
        None
    }
}

/// Why `configure_arena` would refuse, if it would.
pub open spec fn configure_rejection(
    s: ArenaStorageView,
    new_entry_fee: Option<i128>,
    new_join_deadline: Option<u64>,
    now: u64,
) -> Option<ArenaError> {
    match s.config {
        None => Some(ArenaError::ConfigNotFound),
        Some(c) => if c.state != GameState::Open {
            Some(ArenaError::ArenaAlreadyStarted)
        } else if new_entry_fee matches Some(f) && f < MIN_ENTRY_FEE {
            Some(ArenaError::InvalidEntryFee)
        } else if new_join_deadline matches Some(d) && d <= now {
            Some(ArenaError::DeadlineTooSoon)
        } else {
            None
        },
    }
}

/// Why a lifecycle move from `from` (with the pause check of gameplay
/// entry points) would be refused, if it would.
pub open spec fn move_rejection(s: ArenaStorageView, from: GameState) -> Option<ArenaError> {
    match s.config {
        None => Some(ArenaError::ConfigNotFound),
        Some(c) => if c.paused {
            Some(ArenaError::ContractPaused)
        } else if c.state != from {
            Some(ArenaError::InvalidStateTransition)
        } else {
            None
        },
    }
}

/// Why `start_game` would refuse, if it would. A game that is already in
/// progress (it started when the arena filled up) is not refused.
pub open spec fn start_rejection(s: ArenaStorageView) -> Option<ArenaError> {
    match s.config {
        None => Some(ArenaError::ConfigNotFound),
        Some(c) => if c.paused {
            Some(ArenaError::ContractPaused)
        } else if c.state != GameState::Open && c.state != GameState::InProgress {
            Some(ArenaError::InvalidStateTransition)
        } else {
            None
        },
    }
}

/// The deadline of the first round of a game that starts when the arena
/// fills up: one round length after the join deadline (saturating).
pub open spec fn first_round_deadline(c: ArenaConfig) -> u64 {
    if c.join_deadline > u64::MAX - ROUND_DURATION_SECONDS {
        u64::MAX
    } else {
        (c.join_deadline + ROUND_DURATION_SECONDS) as u64
    }
}

/// Why `join` would refuse `player` at time `now`, if it would.
pub open spec fn join_rejection(s: ArenaStorageView, now: u64) -> Option<ArenaError> {
    match s.config {
        None => Some(ArenaError::ConfigNotFound),
        Some(c) => if c.paused {
            Some(ArenaError::ContractPaused)
        } else if c.player_count >= c.max_players {
            Some(ArenaError::ArenaFull)
        } else if c.state != GameState::Open {
            Some(ArenaError::ArenaAlreadyStarted)
        } else if now >= c.join_deadline {
            Some(ArenaError::DeadlinePassed)
        } else {
            None
        },
    }
}

/// Why `submit_choice` would refuse `player`, if it would.
pub open spec fn submit_rejection(s: ArenaStorageView, player: AccountId) -> Option<ArenaError> {
    match s.config {
        None => Some(ArenaError::ConfigNotFound),
        Some(c) => if c.paused {
            Some(ArenaError::ContractPaused)
        } else if c.state != GameState::InProgress {
            Some(ArenaError::InvalidStateTransition)
        } else if !s.players.contains(player) {
            Some(ArenaError::NotAPlayer)
        } else if !is_active(s, player) {
            Some(ArenaError::PlayerEliminated)
        } else {
            None
        },
    }
}

/// Why `claim` would refuse `winner`, if it would.
pub open spec fn claim_rejection(s: ArenaStorageView, winner: AccountId) -> Option<ArenaError> {
    match s.config {
        None => Some(ArenaError::ConfigNotFound),
        Some(c) => if c.paused {
            Some(ArenaError::ContractPaused)
        } else if c.state != GameState::Finished {
            Some(ArenaError::GameNotFinished)
        } else if s.prize_claimed {
            Some(ArenaError::PrizeAlreadyClaimed)
        } else if s.winner != Some(winner) {
            Some(ArenaError::PlayerEliminated)
        } else {
            None
        },
    }
}

/// The pot of an arena: the entry fee of every player.
pub open spec fn pot(c: ArenaConfig) -> int {
    c.player_count * c.entry_fee
}

/// The platform's part of the pot.
pub open spec fn platform_fee(c: ArenaConfig) -> int {
    div_toward_zero(pot(c) * PLATFORM_FEE_BP, 10000)
}

/// Why `claim_refund` would refuse `player`, if it would.
pub open spec fn refund_rejection(s: ArenaStorageView, player: AccountId) -> Option<ArenaError> {
    match s.config {
        None => Some(ArenaError::ConfigNotFound),
        Some(c) => if c.state != GameState::Cancelled {
            Some(ArenaError::ArenaNotCancelled)
        } else if s.refund_claimed.contains_key(player) && s.refund_claimed[player] {
            Some(ArenaError::RefundAlreadyClaimed)
        } else if !s.players.contains(player) {
            Some(ArenaError::NotAPlayer)
        } else {
            None
        },
    }
}

/// The part of the creator stake that a withdrawal forfeits: the slash
/// rate's share while the game is not finished, nothing once it is.
pub open spec fn slashed_amount(c: ArenaConfig, stake: i128) -> int {
    if c.state != GameState::Finished {
        div_toward_zero(stake * c.slash_rate_bps, 10000)
    } else {
        0
    }
}

/// Refuse with `ContractPaused` while the arena is paused.
pub fn require_not_paused(config: &ArenaConfig) -> (r: Result<(), ArenaError>)
    ensures
        r == (if config.paused {
            Err(ArenaError::ContractPaused)
        } else {
            Ok::<(), ArenaError>(())
        }),
{
    if config.paused {
        return Err(ArenaError::ContractPaused);
    }
    Ok(())
}

impl ArenaContract {
    /// An arena that has not been initialized yet.
    pub fn new() -> (a: ArenaContract)
        ensures
            a@.storage.config is None,
            a@.storage.players.len() == 0,
            a@.events.len() == 0,
            a@.transfers.len() == 0,
    {
        ArenaContract {
            storage: ArenaStorage::new(),
            events: ArenaEvents::new(),
            transfers: Vec::new(),
        }
    }

    /// Initialize the arena at time `now`: state `Open`, nothing paused, no
    /// players, no creator stake, a 50% slash rate, and one more arena in
    /// the global statistics.
    ///
    /// The entry fee must be at least `MIN_ENTRY_FEE` and the join deadline
    /// in the future.
    /// Re-initializing by another account than the current admin is refused
    /// with `CooldownNotElapsed` until the creation cooldown has passed since
    /// the last initialization; the admin is never held back.
    pub fn initialize(
        &mut self,
        admin: AccountId,
        token: AccountId,
        entry_fee: i128,
        max_players: u32,
        join_deadline: u64,
        treasury_address: AccountId,
        creation_cooldown_seconds: u64,
        now: u64,
    ) -> (r: Result<(), ArenaError>)
        ensures
            initialize_rejection(old(self)@.storage, admin, entry_fee, join_deadline, now) matches Some(
                e,
            ) ==> r == Err::<(), ArenaError>(e) && final(self)@ == old(self)@,
            initialize_rejection(old(self)@.storage, admin, entry_fee, join_deadline, now) is None
                ==> r is Ok && ({
                let s = old(self)@.storage;
                final(self)@ == ArenaContractView {
                    storage: ArenaStorageView {
                        config: Some(
                            ArenaConfig {
                                admin,
                                token,
                                entry_fee,
                                max_players,
                                join_deadline,
                                state: GameState::Open,
                                paused: false,
                                player_count: 0,
                                treasury_address,
                                last_creation_timestamp: now,
                                creation_cooldown_seconds,
                                creator_stake: 0,
                                slash_rate_bps: DEFAULT_SLASH_RATE_BPS,
                            },
                        ),
                        global_stats: GlobalStats {
                            total_arenas: if s.global_stats.total_arenas == u32::MAX {
                                u32::MAX
                            } else {
                                (s.global_stats.total_arenas + 1) as u32
                            },
                            ..s.global_stats
                        },
                        ..s
                    },
                    events: old(self)@.events.push(ArenaEvent::ArenaInitialized { admin }),
                    transfers: old(self)@.transfers,
                }
            }),
    {
        validate_entry_fee(entry_fee)?;
        validate_deadline(join_deadline, now)?;
        if let Ok(existing) = self.storage.load_config() {
            if admin != existing.admin {
                if existing.creation_cooldown_seconds > 0 {
                    let elapsed = now.saturating_sub(existing.last_creation_timestamp);
                    if elapsed < existing.creation_cooldown_seconds {
                        return Err(ArenaError::CooldownNotElapsed);
                    }
                }
            }
        }
        let config = ArenaConfig {
            admin,
            token,
            entry_fee,
            max_players,
            join_deadline,
            state: GameState::Open,
            paused: false,
            player_count: 0,
            treasury_address,
            last_creation_timestamp: now,
            creation_cooldown_seconds,
            creator_stake: 0,
            slash_rate_bps: DEFAULT_SLASH_RATE_BPS,
        };
        self.storage.save_config(&config);
        self.storage.increment_arena_count();
        self.events.arena_initialized(admin);
        Ok(())
    }

    /// Update the entry fee, the player capacity and the join deadline
    /// before the game starts; parameters given as `None` are kept. The new
    /// fee must be at least `MIN_ENTRY_FEE` and the new deadline after
    /// `now`.
    pub fn configure_arena(
        &mut self,
        new_entry_fee: Option<i128>,
        new_max_players: Option<u32>,
        new_join_deadline: Option<u64>,
        now: u64,
    ) -> (r: Result<(), ArenaError>)
        ensures
            configure_rejection(old(self)@.storage, new_entry_fee, new_join_deadline, now) matches Some(
                e,
            ) ==> r == Err::<(), ArenaError>(e) && final(self)@ == old(self)@,
            configure_rejection(old(self)@.storage, new_entry_fee, new_join_deadline, now) is None
                ==> r is Ok && ({
                let s = old(self)@.storage;
                let c = s.config->0;
                final(self)@ == ArenaContractView {
                    storage: ArenaStorageView {
                        config: Some(
                            ArenaConfig {
                                entry_fee: match new_entry_fee {
                                    Some(f) => f,
                                    None => c.entry_fee,
                                },
                                max_players: match new_max_players {
                                    Some(m) => m,
                                    None => c.max_players,
                                },
                                join_deadline: match new_join_deadline {
                                    Some(d) => d,
                                    None => c.join_deadline,
                                },
                                ..c
                            },
                        ),
                        ..s
                    },
                    events: old(self)@.events.push(ArenaEvent::ArenaConfigured),
                    transfers: old(self)@.transfers,
                }
            }),
    {
        let mut config = self.storage.load_config()?;
        if config.state != GameState::Open {
            return Err(ArenaError::ArenaAlreadyStarted);
        }
        if let Some(fee) = new_entry_fee {
            validate_entry_fee(fee)?;
            config.entry_fee = fee;
        }
        if let Some(max) = new_max_players {
            config.max_players = max;
        }
        if let Some(deadline) = new_join_deadline {
            validate_deadline(deadline, now)?;
            config.join_deadline = deadline;
        }
        self.storage.save_config(&config);
        self.events.arena_configured();
        Ok(())
    }

    /// The arena configuration.
    pub fn get_config(&self) -> (r: Result<ArenaConfig, ArenaError>)
        ensures
            r == (match self@.storage.config {
                Some(c) => Ok::<ArenaConfig, ArenaError>(c),
                None => Err(ArenaError::ConfigNotFound),
            }),
    {
        self.storage.load_config()
    }

    /// The token used for entry fees and payouts.
    pub fn get_token(&self) -> (r: Result<AccountId, ArenaError>)
        ensures
            r == (match self@.storage.config {
                Some(c) => Ok::<AccountId, ArenaError>(c.token),
                None => Err(ArenaError::ConfigNotFound),
            }),
    {
        let config = self.storage.load_config()?;
        Ok(config.token)
    }

    /// Move the lifecycle from `from` to `to`, refusing while paused.
    fn move_state(&mut self, from: GameState, to: GameState) -> (r: Result<(), ArenaError>)
        ensures
            move_rejection(old(self)@.storage, from) matches Some(e) ==> r == Err::<(), ArenaError>(
                e,
            ) && final(self)@ == old(self)@,
            move_rejection(old(self)@.storage, from) is None ==> r is Ok && final(self)@.storage == (
            ArenaStorageView {
                config: Some(ArenaConfig { state: to, ..old(self)@.storage.config->0 }),
                ..old(self)@.storage
            }) && final(self)@.events == old(self)@.events && final(self)@.transfers == old(self)@.transfers,
    {
        let config = self.storage.load_config()?;
        require_not_paused(&config)?;
        if config.state != from {
            return Err(ArenaError::InvalidStateTransition);
        }
        let moved = ArenaConfig { state: to, ..config };
        self.storage.save_config(&moved);
        Ok(())
    }

    /// Start the game: `Open` becomes `InProgress`. A game that already
    /// started when the arena filled up is left as it is.
    pub fn start_game(&mut self) -> (r: Result<(), ArenaError>)
        ensures
            start_rejection(old(self)@.storage) matches Some(e) ==> r == Err::<(), ArenaError>(e)
                && final(self)@ == old(self)@,
            start_rejection(old(self)@.storage) is None && old(self)@.storage.config->0.state
                == GameState::InProgress ==> r is Ok && final(self)@ == old(self)@,
            start_rejection(old(self)@.storage) is None && old(self)@.storage.config->0.state
                == GameState::Open ==> r is Ok && final(self)@ == (ArenaContractView {
                storage: ArenaStorageView {
                    config: Some(
                        ArenaConfig {
                            state: GameState::InProgress,
                            ..old(self)@.storage.config->0
                        },
                    ),
                    ..old(self)@.storage
                },
                events: old(self)@.events.push(ArenaEvent::GameStarted),
                transfers: old(self)@.transfers,
            }),
    {
        let config = self.storage.load_config()?;
        require_not_paused(&config)?;
        if config.state == GameState::InProgress {
            return Ok(());
        }
        self.move_state(GameState::Open, GameState::InProgress)?;
        self.events.game_started();
        Ok(())
    }

    /// Finish the game: `InProgress` becomes `Finished`.
    pub fn finish_game(&mut self) -> (r: Result<(), ArenaError>)
        ensures
            move_rejection(old(self)@.storage, GameState::InProgress) matches Some(e) ==> r
                == Err::<(), ArenaError>(e) && final(self)@ == old(self)@,
            move_rejection(old(self)@.storage, GameState::InProgress) is None ==> r is Ok && final(self)@ == (ArenaContractView {
                storage: ArenaStorageView {
                    config: Some(
                        ArenaConfig { state: GameState::Finished, ..old(self)@.storage.config->0 },
                    ),
                    ..old(self)@.storage
                },
                events: old(self)@.events.push(ArenaEvent::GameFinished),
                transfers: old(self)@.transfers,
            }),
    {
        self.move_state(GameState::InProgress, GameState::Finished)?;
        self.events.game_finished();
        Ok(())
    }

    /// Update the configuration with `update`, publishing `event`.
    fn update_config(&mut self, update: ArenaConfig, event: ArenaEvent) -> (r: Result<
        (),
        ArenaError,
    >)
        ensures
            old(self)@.storage.config is None ==> r == Err::<(), ArenaError>(
                ArenaError::ConfigNotFound,
            ) && final(self)@ == old(self)@,
            old(self)@.storage.config is Some ==> r is Ok && final(self)@ == (ArenaContractView {
                storage: ArenaStorageView { config: Some(update), ..old(self)@.storage },
                events: old(self)@.events.push(event),
                transfers: old(self)@.transfers,
            }),
    {
        let _config = self.storage.load_config()?;
        self.storage.save_config(&update);
        self.events.log.push(event);
        Ok(())
    }

    /// Pause the arena for `reason`: gameplay entry points reject until
    /// `unpause`.
    pub fn pause(&mut self, reason: String) -> (r: Result<(), ArenaError>)
        ensures
            old(self)@.storage.config is None ==> r == Err::<(), ArenaError>(
                ArenaError::ConfigNotFound,
            ) && final(self)@ == old(self)@,
            old(self)@.storage.config matches Some(c) ==> r is Ok && final(self)@ == (
            ArenaContractView {
                storage: ArenaStorageView {
                    config: Some(ArenaConfig { paused: true, ..c }),
                    ..old(self)@.storage
                },
                events: old(self)@.events.push(ArenaEvent::ContractPaused { admin: c.admin, reason }),
                transfers: old(self)@.transfers,
            }),
    {
        let config = self.storage.load_config()?;
        self.update_config(
            ArenaConfig { paused: true, ..config },
            ArenaEvent::ContractPaused { admin: config.admin, reason },
        )
    }

    /// Resume normal operation after a `pause`.
    pub fn unpause(&mut self) -> (r: Result<(), ArenaError>)
        ensures
            old(self)@.storage.config is None ==> r == Err::<(), ArenaError>(
                ArenaError::ConfigNotFound,
            ) && final(self)@ == old(self)@,
            old(self)@.storage.config matches Some(c) ==> r is Ok && final(self)@ == (
            ArenaContractView {
                storage: ArenaStorageView {
                    config: Some(ArenaConfig { paused: false, ..c }),
                    ..old(self)@.storage
                },
                events: old(self)@.events.push(ArenaEvent::ContractUnpaused { admin: c.admin }),
                transfers: old(self)@.transfers,
            }),
    {
        let config = self.storage.load_config()?;
        self.update_config(
            ArenaConfig { paused: false, ..config },
            ArenaEvent::ContractUnpaused { admin: config.admin },
        )
    }

    /// Change the treasury that collects platform fees.
    pub fn update_treasury(&mut self, new_treasury: AccountId) -> (r: Result<(), ArenaError>)
        ensures
            old(self)@.storage.config is None ==> r == Err::<(), ArenaError>(
                ArenaError::ConfigNotFound,
            ) && final(self)@ == old(self)@,
            old(self)@.storage.config matches Some(c) ==> r is Ok && final(self)@ == (
            ArenaContractView {
                storage: ArenaStorageView {
                    config: Some(ArenaConfig { treasury_address: new_treasury, ..c }),
                    ..old(self)@.storage
                },
                events: old(self)@.events.push(
                    ArenaEvent::TreasuryUpdated { admin: c.admin, new_treasury },
                ),
                transfers: old(self)@.transfers,
            }),
    {
        let config = self.storage.load_config()?;
        self.update_config(
            ArenaConfig { treasury_address: new_treasury, ..config },
            ArenaEvent::TreasuryUpdated { admin: config.admin, new_treasury },
        )
    }

    /// Set the minimum time between two initializations by non-admins.
    pub fn set_creation_cooldown(&mut self, cooldown_seconds: u64) -> (r: Result<(), ArenaError>)
        ensures
            old(self)@.storage.config is None ==> r == Err::<(), ArenaError>(
                ArenaError::ConfigNotFound,
            ) && final(self)@ == old(self)@,
            old(self)@.storage.config matches Some(c) ==> r is Ok && final(self)@ == (
            ArenaContractView {
                storage: ArenaStorageView {
                    config: Some(
                        ArenaConfig { creation_cooldown_seconds: cooldown_seconds, ..c },
                    ),
                    ..old(self)@.storage
                },
                events: old(self)@.events.push(
                    ArenaEvent::CooldownConfigured { admin: c.admin, cooldown_seconds },
                ),
                transfers: old(self)@.transfers,
            }),
    {
        let config = self.storage.load_config()?;
        self.update_config(
            ArenaConfig { creation_cooldown_seconds: cooldown_seconds, ..config },
            ArenaEvent::CooldownConfigured { admin: config.admin, cooldown_seconds },
        )
    }

    /// The treasury that collects platform fees.
    pub fn treasury(&self) -> (r: Result<AccountId, ArenaError>)
        ensures
            r == (match self@.storage.config {
                Some(c) => Ok::<AccountId, ArenaError>(c.treasury_address),
                None => Err(ArenaError::ConfigNotFound),
            }),
    {
        let config = self.storage.load_config()?;
        Ok(config.treasury_address)
    }

    /// Join the arena at time `now`, paying the entry fee.
    ///
    /// Only below capacity, while `Open` and before the join deadline. The
    /// fee moves to the arena, the player is listed as active, the player
    /// count grows by one, and the fee is added (saturating) to the prize
    /// pool and to the global pool total; the global live survivor count
    /// grows by one (saturating). The join that fills the arena starts the
    /// game: it becomes `InProgress` with round 1 running until
    /// `first_round_deadline`, and `GameStarted` and `RoundStarted` follow
    /// `PlayerJoined`.
    pub fn join(&mut self, player: AccountId, now: u64) -> (r: Result<(), ArenaError>)
        ensures
            join_rejection(old(self)@.storage, now) matches Some(e) ==> r == Err::<(), ArenaError>(
                e,
            ) && final(self)@ == old(self)@,
            join_rejection(old(self)@.storage, now) is None ==> r is Ok && ({
                let s = old(self)@.storage;
                let c = s.config->0;
                let full = c.player_count + 1 >= c.max_players;
                let joined = old(self)@.events.push(ArenaEvent::PlayerJoined { player });
                final(self)@ == ArenaContractView {
                    storage: ArenaStorageView {
                        players: s.players.push(player),
                        active: s.active.insert(player, true),
                        config: Some(
                            ArenaConfig {
                                player_count: (c.player_count + 1) as u32,
                                state: if full {
                                    GameState::InProgress
                                } else {
                                    c.state
                                },
                                ..c
                            },
                        ),
                        round: if full {
                            1
                        } else {
                            s.round
                        },
                        round_deadline: if full {
                            Some(first_round_deadline(c))
                        } else {
                            s.round_deadline
                        },
                        global_stats: GlobalStats {
                            live_survivors: if s.global_stats.live_survivors == u32::MAX {
                                u32::MAX
                            } else {
                                (s.global_stats.live_survivors + 1) as u32
                            },
                            global_pool_total: clamp_i128(
                                s.global_stats.global_pool_total + c.entry_fee,
                            ),
                            ..s.global_stats
                        },
                        prize_pool: clamp_i128(s.prize_pool + c.entry_fee),
                        ..s
                    },
                    events: if full {
                        joined.push(ArenaEvent::GameStarted).push(
                            ArenaEvent::RoundStarted { round: 1, deadline: first_round_deadline(c) },
                        )
                    } else {
                        joined
                    },
                    transfers: old(self)@.transfers.push(
                        Transfer::ToArena { from: player, amount: c.entry_fee },
                    ),
                }
            }),
    {
        let config = self.storage.load_config()?;
        require_not_paused(&config)?;
        if config.player_count >= config.max_players {
            return Err(ArenaError::ArenaFull);
        }
        if config.state != GameState::Open {
            return Err(ArenaError::ArenaAlreadyStarted);
        }
        if now >= config.join_deadline {
            return Err(ArenaError::DeadlinePassed);
        }
        self.transfers.push(Transfer::ToArena { from: player, amount: config.entry_fee });
        self.storage.add_player(player);
        let updated = ArenaConfig { player_count: config.player_count + 1, ..config };
        self.storage.save_config(&updated);
        self.storage.increment_live_survivors(1);
        self.storage.add_to_global_pool(config.entry_fee);
        let current_pool = self.storage.get_prize_pool();
        self.storage.set_prize_pool(saturating_add_i128(current_pool, config.entry_fee));
        self.events.player_joined(player);
        if updated.player_count >= updated.max_players {
            let started = ArenaConfig { state: GameState::InProgress, ..updated };
            self.storage.save_config(&started);
            let deadline = if config.join_deadline > u64::MAX - ROUND_DURATION_SECONDS {
                u64::MAX
            } else {
                config.join_deadline + ROUND_DURATION_SECONDS
            };
            self.storage.set_round(1);
            self.storage.set_round_deadline(deadline);
            self.events.game_started();
            self.events.round_started(1, deadline);
        }
        Ok(())
    }

    /// The number of players that joined.
    pub fn get_player_count(&self) -> (r: Result<u32, ArenaError>)
        ensures
            r == (match self@.storage.config {
                Some(c) => Ok::<u32, ArenaError>(c.player_count),
                None => Err(ArenaError::ConfigNotFound),
            }),
    {
        let config = self.storage.load_config()?;
        Ok(config.player_count)
    }

    /// Submit a choice for the current round: only while `InProgress`, and
    /// only by a listed player who is still active. A later submission in
    /// the same round replaces the earlier one.
    pub fn submit_choice(&mut self, player: AccountId, choice: Choice) -> (r: Result<
        (),
        ArenaError,
    >)
        ensures
            submit_rejection(old(self)@.storage, player) matches Some(e) ==> r == Err::<
                (),
                ArenaError,
            >(e) && final(self)@ == old(self)@,
            submit_rejection(old(self)@.storage, player) is None ==> r is Ok && final(self)@ == (
            ArenaContractView {
                storage: ArenaStorageView {
                    choices: old(self)@.storage.choices.insert(player, choice),
                    ..old(self)@.storage
                },
                events: old(self)@.events.push(ArenaEvent::ChoiceSubmitted { player }),
                transfers: old(self)@.transfers,
            }),
    {
        let config = self.storage.load_config()?;
        require_not_paused(&config)?;
        if config.state != GameState::InProgress {
            return Err(ArenaError::InvalidStateTransition);
        }
        if !self.storage.contains_player(player) {
            return Err(ArenaError::NotAPlayer);
        }
        if !self.storage.is_player_active(player) {
            return Err(ArenaError::PlayerEliminated);
        }
        self.storage.save_player_choice(player, &choice);
        self.events.choice_submitted(player);
        Ok(())
    }

    /// Claim the pot as the recorded winner: the platform fee (10% of the
    /// pot, rounded toward zero) goes to the admin and the rest to the
    /// winner, and the prize is marked claimed.
    pub fn claim(&mut self, winner: AccountId) -> (r: Result<(), ArenaError>)
        requires
            claim_rejection(old(self)@.storage, winner) is None ==> i128::MIN <= pot(
                old(self)@.storage.config->0,
            ) * PLATFORM_FEE_BP <= i128::MAX,
        ensures
            claim_rejection(old(self)@.storage, winner) matches Some(e) ==> r == Err::<
                (),
                ArenaError,
            >(e) && final(self)@ == old(self)@,
            claim_rejection(old(self)@.storage, winner) is None ==> r is Ok && ({
                let s = old(self)@.storage;
                let c = s.config->0;
                final(self)@ == ArenaContractView {
                    storage: ArenaStorageView { prize_claimed: true, ..s },
                    events: old(self)@.events.push(ArenaEvent::PrizeClaimed { winner }),
                    transfers: old(self)@.transfers.push(
                        Transfer::FromArena { to: c.admin, amount: platform_fee(c) as i128 },
                    ).push(
                        Transfer::FromArena {
                            to: winner,
                            amount: (pot(c) - platform_fee(c)) as i128,
                        },
                    ),
                }
            }),
    {
        let config = self.storage.load_config()?;
        require_not_paused(&config)?;
        if config.state != GameState::Finished {
            return Err(ArenaError::GameNotFinished);
        }
        if self.storage.is_prize_claimed() {
            return Err(ArenaError::PrizeAlreadyClaimed);
        }
        match self.storage.get_winner() {
            Some(w) => if w != winner {
                return Err(ArenaError::PlayerEliminated);
            },
            None => return Err(ArenaError::PlayerEliminated),
        }
        assert(PLATFORM_FEE_BP * pot(config) == pot(config) * PLATFORM_FEE_BP);
        let total_pot = (config.player_count as i128) * config.entry_fee;
        let fee = total_pot * PLATFORM_FEE_BP / 10000;
        let prize = total_pot - fee;
        self.transfers.push(Transfer::FromArena { to: config.admin, amount: fee });
        self.transfers.push(Transfer::FromArena { to: winner, amount: prize });
        self.storage.set_prize_claimed();
        self.events.prize_claimed(winner);
        Ok(())
    }

    /// Cancel the arena before the game starts: `Open` becomes `Cancelled`,
    /// after which players can claim refunds.
    pub fn cancel_arena(&mut self) -> (r: Result<(), ArenaError>)
        ensures
            old(self)@.storage.config is None ==> r == Err::<(), ArenaError>(
                ArenaError::ConfigNotFound,
            ) && final(self)@ == old(self)@,
            old(self)@.storage.config matches Some(c) ==> (c.state != GameState::Open ==> r
                == Err::<(), ArenaError>(ArenaError::InvalidStateTransition) && final(self)@ == old(self)@),
            old(self)@.storage.config matches Some(c) ==> (c.state == GameState::Open ==> r is Ok
                && final(self)@ == (ArenaContractView {
                storage: ArenaStorageView {
                    config: Some(ArenaConfig { state: GameState::Cancelled, ..c }),
                    ..old(self)@.storage
                },
                events: old(self)@.events.push(ArenaEvent::ArenaCancelled),
                transfers: old(self)@.transfers,
            })),
    {
        let config = self.storage.load_config()?;
        if config.state != GameState::Open {
            return Err(ArenaError::InvalidStateTransition);
        }
        let cancelled = ArenaConfig { state: GameState::Cancelled, ..config };
        self.storage.save_config(&cancelled);
        self.events.arena_cancelled();
        Ok(())
    }

    /// Expire an arena still `Open` after its join deadline, at time `now`:
    /// it becomes `Cancelled` so that players can claim refunds. Anyone may
    /// call this.
    pub fn expire_arena(&mut self, now: u64) -> (r: Result<(), ArenaError>)
        ensures
            old(self)@.storage.config is None ==> r == Err::<(), ArenaError>(
                ArenaError::ConfigNotFound,
            ) && final(self)@ == old(self)@,
            old(self)@.storage.config matches Some(c) ==> (c.state != GameState::Open ==> r
                == Err::<(), ArenaError>(ArenaError::InvalidStateTransition) && final(self)@ == old(self)@),
            old(self)@.storage.config matches Some(c) ==> (c.state == GameState::Open && now
                <= c.join_deadline ==> r == Err::<(), ArenaError>(ArenaError::DeadlineTooSoon)
                && final(self)@ == old(self)@),
            old(self)@.storage.config matches Some(c) ==> (c.state == GameState::Open && now
                > c.join_deadline ==> r is Ok && final(self)@ == (ArenaContractView {
                storage: ArenaStorageView {
                    config: Some(ArenaConfig { state: GameState::Cancelled, ..c }),
                    ..old(self)@.storage
                },
                events: old(self)@.events.push(ArenaEvent::ArenaCancelled),
                transfers: old(self)@.transfers,
            })),
    {
        let config = self.storage.load_config()?;
        if config.state != GameState::Open {
            return Err(ArenaError::InvalidStateTransition);
        }
        if now <= config.join_deadline {
            return Err(ArenaError::DeadlineTooSoon);
        }
        let cancelled = ArenaConfig { state: GameState::Cancelled, ..config };
        self.storage.save_config(&cancelled);
        self.events.arena_cancelled();
        Ok(())
    }

    /// Remove the transient data of a `Finished` or `Cancelled` arena,
    /// keeping its configuration.
    pub fn cleanup_arena(&mut self) -> (r: Result<(), ArenaError>)
        ensures
            old(self)@.storage.config is None ==> r == Err::<(), ArenaError>(
                ArenaError::ConfigNotFound,
            ) && final(self)@ == old(self)@,
            old(self)@.storage.config matches Some(c) ==> (c.state != GameState::Finished
                && c.state != GameState::Cancelled ==> r == Err::<(), ArenaError>(
                ArenaError::ArenaNotFinished,
            ) && final(self)@ == old(self)@),
            old(self)@.storage.config matches Some(c) ==> (c.state == GameState::Finished
                || c.state == GameState::Cancelled ==> r is Ok && ({
                let s = old(self)@.storage;
                final(self)@ == ArenaContractView {
                    storage: ArenaStorageView {
                        players: Seq::empty(),
                        active: without_players(s.active, s.players),
                        choices: without_players(s.choices, s.players),
                        refund_claimed: without_players(s.refund_claimed, s.players),
                        winner: None,
                        round: 0,
                        prize_claimed: false,
                        creator_stake: 0,
                        ..s
                    },
                    ..old(self)@
                }
            })),
    {
        let config = self.storage.load_config()?;
        if config.state != GameState::Finished && config.state != GameState::Cancelled {
            return Err(ArenaError::ArenaNotFinished);
        }
        self.storage.cleanup_arena_data();
        Ok(())
    }

    /// Refund the entry fee of a listed player of a `Cancelled` arena, once.
    pub fn claim_refund(&mut self, player: AccountId) -> (r: Result<(), ArenaError>)
        ensures
            refund_rejection(old(self)@.storage, player) matches Some(e) ==> r == Err::<
                (),
                ArenaError,
            >(e) && final(self)@ == old(self)@,
            refund_rejection(old(self)@.storage, player) is None ==> r is Ok && final(self)@ == (
            ArenaContractView {
                storage: ArenaStorageView {
                    refund_claimed: old(self)@.storage.refund_claimed.insert(player, true),
                    ..old(self)@.storage
                },
                events: old(self)@.events.push(ArenaEvent::RefundClaimed { player }),
                transfers: old(self)@.transfers.push(
                    Transfer::FromArena {
                        to: player,
                        amount: old(self)@.storage.config->0.entry_fee,
                    },
                ),
            }),
    {
        let config = self.storage.load_config()?;
        if config.state != GameState::Cancelled {
            return Err(ArenaError::ArenaNotCancelled);
        }
        if self.storage.is_refund_claimed(player) {
            return Err(ArenaError::RefundAlreadyClaimed);
        }
        if !self.storage.contains_player(player) {
            return Err(ArenaError::NotAPlayer);
        }
        self.transfers.push(Transfer::FromArena { to: player, amount: config.entry_fee });
        self.storage.set_refund_claimed(player);
        self.events.refund_claimed(player);
        Ok(())
    }

    /// Deposit the creator stake: a positive amount, once, moved from the
    /// creator to the arena and recorded in the configuration too.
    pub fn deposit_creator_stake(&mut self, creator: AccountId, amount: i128) -> (r: Result<
        (),
        ArenaError,
    >)
        ensures
            amount <= 0 ==> r == Err::<(), ArenaError>(ArenaError::InvalidStakeAmount) && final(self)@ == old(self)@,
            amount > 0 && old(self)@.storage.creator_stake > 0 ==> r == Err::<(), ArenaError>(
                ArenaError::StakeAlreadyDeposited,
            ) && final(self)@ == old(self)@,
            amount > 0 && old(self)@.storage.creator_stake <= 0 && old(self)@.storage.config is None
                ==> r == Err::<(), ArenaError>(ArenaError::ConfigNotFound) && final(self)@ == old(self)@,
            amount > 0 && old(self)@.storage.creator_stake <= 0 && old(self)@.storage.config is Some
                ==> r is Ok && final(self)@ == (ArenaContractView {
                storage: ArenaStorageView {
                    creator_stake: amount,
                    config: Some(
                        ArenaConfig { creator_stake: amount, ..old(self)@.storage.config->0 },
                    ),
                    ..old(self)@.storage
                },
                events: old(self)@.events.push(
                    ArenaEvent::CreatorStakeDeposited { creator, amount, total: amount },
                ),
                transfers: old(self)@.transfers.push(
                    Transfer::ToArena { from: creator, amount },
                ),
            }),
    {
        if amount <= 0 {
            return Err(ArenaError::InvalidStakeAmount);
        }
        if self.storage.load_creator_stake() > 0 {
            return Err(ArenaError::StakeAlreadyDeposited);
        }
        let config = self.storage.load_config()?;
        self.transfers.push(Transfer::ToArena { from: creator, amount });
        self.storage.save_creator_stake(amount);
        let updated = ArenaConfig { creator_stake: amount, ..config };
        self.storage.save_config(&updated);
        self.events.creator_stake_deposited(creator, amount, amount);
        Ok(())
    }

    /// Withdraw the creator stake. While the game is not finished, the slash
    /// rate's share of the stake (rounded toward zero) is forfeited and only
    /// the rest is returned; once finished, the whole stake is returned. The
    /// stake is then zero.
    pub fn withdraw_creator_stake(&mut self, creator: AccountId) -> (r: Result<(), ArenaError>)
        requires
            old(self)@.storage.config matches Some(c) ==> (c.state != GameState::Finished
                ==> old(self)@.storage.creator_stake * c.slash_rate_bps <= i128::MAX),
        ensures
            old(self)@.storage.creator_stake <= 0 ==> r == Err::<(), ArenaError>(
                ArenaError::NoStakeToWithdraw,
            ) && final(self)@ == old(self)@,
            old(self)@.storage.creator_stake > 0 && old(self)@.storage.config is None ==> r
                == Err::<(), ArenaError>(ArenaError::ConfigNotFound) && final(self)@ == old(self)@,
            old(self)@.storage.creator_stake > 0 && old(self)@.storage.config is Some ==> r is Ok
                && ({
                let s = old(self)@.storage;
                let c = s.config->0;
                let slashed = slashed_amount(c, s.creator_stake);
                let returned = (s.creator_stake - slashed) as i128;
                final(self)@ == ArenaContractView {
                    storage: ArenaStorageView {
                        creator_stake: 0,
                        config: Some(ArenaConfig { creator_stake: 0, ..c }),
                        ..s
                    },
                    events: old(self)@.events.push(
                        if slashed > 0 {
                            ArenaEvent::StakeSlashed {
                                creator,
                                slashed_amount: slashed as i128,
                                remaining_returned: returned,
                            }
                        } else {
                            ArenaEvent::CreatorStakeWithdrawn {
                                creator,
                                amount: returned,
                                slashed: false,
                            }
                        },
                    ),
                    transfers: old(self)@.transfers.push(
                        Transfer::FromArena { to: creator, amount: returned },
                    ),
                }
            }),
    {
        let stake = self.storage.load_creator_stake();
        if stake <= 0 {
            return Err(ArenaError::NoStakeToWithdraw);
        }
        let config = self.storage.load_config()?;
        let (withdrawn, slashed) = if config.state != GameState::Finished {
            let rate = config.slash_rate_bps as i128;
            let slashed_amount = (stake * rate) / 10000;
            (stake - slashed_amount, slashed_amount)
        } else {
            (stake, 0)
        };
        self.transfers.push(Transfer::FromArena { to: creator, amount: withdrawn });
        self.storage.save_creator_stake(0);
        let updated = ArenaConfig { creator_stake: 0, ..config };
        self.storage.save_config(&updated);
        if slashed > 0 {
            self.events.stake_slashed(creator, slashed, withdrawn);
        } else {
            self.events.creator_stake_withdrawn(creator, withdrawn, false);
        }
        Ok(())
    }

    /// The deposited creator stake.
    pub fn get_creator_stake(&self) -> (a: i128)
        ensures
            a == self@.storage.creator_stake,
    {
        self.storage.load_creator_stake()
    }

    /// Set the slash rate for creator stake withdrawals, at most 10_000 bps.
    pub fn set_slash_rate(&mut self, slash_rate_bps: u32) -> (r: Result<(), ArenaError>)
        ensures
            old(self)@.storage.config is None ==> r == Err::<(), ArenaError>(
                ArenaError::ConfigNotFound,
            ) && final(self)@ == old(self)@,
            old(self)@.storage.config is Some && slash_rate_bps > 10000 ==> r == Err::<
                (),
                ArenaError,
            >(ArenaError::InvalidSlashRate) && final(self)@ == old(self)@,
            old(self)@.storage.config matches Some(c) ==> (slash_rate_bps <= 10000 ==> r is Ok
                && final(self)@ == (ArenaContractView {
                storage: ArenaStorageView {
                    config: Some(ArenaConfig { slash_rate_bps, ..c }),
                    ..old(self)@.storage
                },
                events: old(self)@.events.push(
                    ArenaEvent::SlashRateConfigured { admin: c.admin, slash_rate_bps },
                ),
                transfers: old(self)@.transfers,
            })),
    {
        let config = self.storage.load_config()?;
        if slash_rate_bps > 10000 {
            return Err(ArenaError::InvalidSlashRate);
        }
        self.update_config(
            ArenaConfig { slash_rate_bps, ..config },
            ArenaEvent::SlashRateConfigured { admin: config.admin, slash_rate_bps },
        )
    }

    /// The recorded winner, once the game is finished.
    pub fn winner(&self) -> (r: Option<AccountId>)
        ensures
            r == self@.storage.winner,
    {
        self.storage.get_winner()
    }

    /// The lifecycle state; `Open` before initialization.
    pub fn game_state(&self) -> (g: GameState)
        ensures
            g == (match self@.storage.config {
                Some(c) => c.state,
                None => GameState::Open,
            }),
    {
        match self.storage.load_config() {
            Ok(c) => c.state,
            Err(_) => GameState::Open,
        }
    }

    /// The global statistics.
    pub fn get_global_stats(&self) -> (g: GlobalStats)
        ensures
            g == self@.storage.global_stats,
    {
        self.storage.load_global_stats()
    }

    /// Receive a yield deposit of `yield_amount` from an RWA adapter at
    /// ledger sequence `ledger_sequence`: the prize pool and the global pool
    /// total grow by it (saturating), a record is stored under the next
    /// identifier, and that identifier is returned. Refused for a
    /// non-positive amount and once the game is finished.
    pub fn receive_rwa_yield(
        &mut self,
        adapter: AccountId,
        yield_amount: i128,
        source_label: String,
        ledger_sequence: u32,
    ) -> (r: Result<u64, ArenaError>)
        ensures
            yield_amount <= 0 ==> r == Err::<u64, ArenaError>(ArenaError::InvalidEntryFee) && final(self)@ == old(self)@,
            yield_amount > 0 && old(self)@.storage.config is None ==> r == Err::<u64, ArenaError>(
                ArenaError::ConfigNotFound,
            ) && final(self)@ == old(self)@,
            yield_amount > 0 && old(self)@.storage.config is Some && old(self)@.storage.config->0.state
                == GameState::Finished ==> r == Err::<u64, ArenaError>(
                ArenaError::ArenaAlreadyStarted,
            ) && final(self)@ == old(self)@,
            yield_amount > 0 && old(self)@.storage.config is Some && old(self)@.storage.config->0.state
                != GameState::Finished ==> ({
                let s = old(self)@.storage;
                let id = if s.rwa_counter == u64::MAX {
                    u64::MAX
                } else {
                    (s.rwa_counter + 1) as u64
                };
                &&& r == Ok::<u64, ArenaError>(id)
                &&& final(self)@ == ArenaContractView {
                    storage: ArenaStorageView {
                        prize_pool: clamp_i128(s.prize_pool + yield_amount),
                        global_stats: GlobalStats {
                            global_pool_total: clamp_i128(
                                s.global_stats.global_pool_total + yield_amount,
                            ),
                            ..s.global_stats
                        },
                        rwa_counter: id,
                        rwa_yields: without_id(s.rwa_yields, id).push(
                            RwaYieldRecord {
                                id,
                                adapter,
                                yield_amount,
                                received_at: ledger_sequence,
                                source_label,
                            },
                        ),
                        ..s
                    },
                    events: old(self)@.events.push(
                        ArenaEvent::RwaYieldReceived { amount: yield_amount },
                    ),
                    transfers: old(self)@.transfers,
                }
            }),
    {
        if yield_amount <= 0 {
            return Err(ArenaError::InvalidEntryFee);
        }
        let config = self.storage.load_config()?;
        if config.state == GameState::Finished {
            return Err(ArenaError::ArenaAlreadyStarted);
        }
        let current_pool = self.storage.get_prize_pool();
        self.storage.set_prize_pool(saturating_add_i128(current_pool, yield_amount));
        self.storage.add_to_global_pool(yield_amount);
        let id = self.storage.create_rwa_yield(
            RwaYieldRecord {
                id: 0,
                adapter,
                yield_amount,
                received_at: ledger_sequence,
                source_label,
            },
        );
        self.events.rwa_yield_received(yield_amount);
        Ok(id)
    }
}

} // verus!
