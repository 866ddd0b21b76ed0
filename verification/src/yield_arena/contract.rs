//! The entry points of the yield arena.

use vstd::prelude::*;

use super::events::{ArenaCall, ArenaEvent, ArenaEvents};
use super::state_machine::{ensure_state, spec_can_transition};
use super::storage::{
    commitment_for, choice_for, min_players_or_default, player_state_or_default, ArenaStorage,
    ArenaStorageView, MIN_PLAYERS_TO_START,
};
use super::types::{
    choice_byte, ArenaConfig, ArenaError, Choice, GameState, PendingAdmin, PlayerState,
    RoundResult, YieldSnapshot,
};
use crate::digest::{sha256, sha256_digest};
use crate::num::{clamp_i128, saturating_add_i128};
use crate::AccountId;

verus! {

/// Number of players per page of `get_players`.
pub const PAGE_SIZE: u32 = 50;

/// Maximum number of players, unless configured.
pub const DEFAULT_MAX_PLAYERS: u32 = u32::MAX;

/// The arena's storage and ABI version.
pub const CONTRACT_VERSION: u32 = 1;

/// One arena: its persistent state, the events it has published and the
/// host calls it has requested, both in order.
#[derive(Clone)]
pub struct ArenaContract {
    pub storage: ArenaStorage,
    pub events: ArenaEvents,
    pub calls: Vec<ArenaCall>,
}

/// The mathematical view of an arena.
pub struct ArenaContractView {
    pub storage: ArenaStorageView,
    pub events: Seq<ArenaEvent>,
    pub calls: Seq<ArenaCall>,
}

impl View for ArenaContract {
    type V = ArenaContractView;

    open spec fn view(&self) -> ArenaContractView {
        ArenaContractView {
            storage: self.storage@,
            events: self.events.log@,
            calls: self.calls@,
        }
    }
}

/// The round that commitments and reveals currently refer to: the one after
/// the last completed round.
pub open spec fn current_round(c: ArenaConfig) -> u32 {
    if c.round_count == u32::MAX {
        u32::MAX
    } else {
        (c.round_count + 1) as u32
    }
}

/// The commitment expected for a choice and salt: SHA-256 of the choice
/// byte followed by the 32 salt bytes.
pub open spec fn expected_commitment(choice: Choice, salt: Seq<u8>) -> Seq<u8> {
    sha256_digest(seq![choice_byte(choice)] + salt)
}

/// Player limits are valid when the minimum is at least two and does not
/// exceed the maximum.
pub open spec fn player_limits_valid(min_players: u32, max_players: u32) -> bool {
    MIN_PLAYERS_TO_START <= min_players && min_players <= max_players
}

impl ArenaContract {
    /// An arena that has not been initialized yet.
    pub fn new() -> (a: ArenaContract)
        ensures
            a@.storage.config is None,
            a@.storage.players.len() == 0,
            a@.events.len() == 0,
            a@.calls.len() == 0,
    {
        ArenaContract { storage: ArenaStorage::new(), events: ArenaEvents::new(), calls: Vec::new() }
    }

    /// Initialise the arena with its configuration: state `Open`, nothing
    /// paused, no players, no yield, player limits `[2, u32::MAX]`, and a
    /// recorded vault balance of zero.
    ///
    /// `vault_responds` is whether the yield vault answered a balance query;
    /// a vault that does not answer is rejected with `InvalidVaultAddress`.
    /// A second initialization fails with `AlreadyInitialized`.
    pub fn initialize(
        &mut self,
        admin: AccountId,
        stake_token: AccountId,
        yield_vault: AccountId,
        entry_fee: i128,
        oracle_contract: AccountId,
        vault_responds: bool,
    ) -> (r: Result<(), ArenaError>)
        ensures
            old(self)@.storage.config is Some ==> r == Err::<(), ArenaError>(
                ArenaError::AlreadyInitialized,
            ) && final(self)@ == old(self)@,
            old(self)@.storage.config is None && !vault_responds ==> r == Err::<(), ArenaError>(
                ArenaError::InvalidVaultAddress,
            ) && final(self)@ == old(self)@,
            old(self)@.storage.config is None && vault_responds ==> r is Ok && final(self)@ == (
            ArenaContractView {
                storage: ArenaStorageView {
                    config: Some(
                        ArenaConfig {
                            admin,
                            stake_token,
                            yield_vault,
                            entry_fee,
                            state: GameState::Open,
                            paused: false,
                            player_count: 0,
                            cumulative_yield: 0,
                            commit_deadline: 0,
                            round_count: 0,
                            oracle_contract,
                        },
                    ),
                    min_players: Some(MIN_PLAYERS_TO_START),
                    max_players: Some(DEFAULT_MAX_PLAYERS),
                    last_vault_balance: Some(0),
                    ..old(self)@.storage
                },
                events: old(self)@.events.push(ArenaEvent::Initialized { admin }),
                calls: old(self)@.calls,
            }),
    {
        if self.storage.has_config() {
            return Err(ArenaError::AlreadyInitialized);
        }
        if !vault_responds {
            return Err(ArenaError::InvalidVaultAddress);
        }
        let config = ArenaConfig {
            admin,
            stake_token,
            yield_vault,
            entry_fee,
            state: GameState::Open,
            paused: false,
            player_count: 0,
            cumulative_yield: 0,
            commit_deadline: 0,
            round_count: 0,
            oracle_contract,
        };
        self.storage.save_config(&config);
        self.storage.save_player_limits(MIN_PLAYERS_TO_START, DEFAULT_MAX_PLAYERS);
        self.storage.save_last_vault_balance(0);
        self.events.initialized(admin);
        Ok(())
    }

    /// The arena contract ABI/storage version.
    pub fn version() -> (v: u32)
        ensures
            v == CONTRACT_VERSION,
    {
        CONTRACT_VERSION
    }

    /// Replace the arena's code. Allowed while paused, so that a pause can be
    /// followed by a recovery upgrade.
    pub fn upgrade(&mut self, new_wasm_hash: &[u8; 32]) -> (r: Result<(), ArenaError>)
        ensures
            old(self)@.storage.config is None ==> r == Err::<(), ArenaError>(
                ArenaError::NotInitialized,
            ) && final(self)@ == old(self)@,
            old(self)@.storage.config is Some ==> r is Ok && final(self)@ == (ArenaContractView {
                storage: old(self)@.storage,
                events: old(self)@.events.push(ArenaEvent::Upgraded { wasm_hash: *new_wasm_hash }),
                calls: old(self)@.calls.push(ArenaCall::UpdateWasm { wasm_hash: *new_wasm_hash }),
            }),
    {
        let _config = self.storage.load_config()?;
        self.calls.push(ArenaCall::UpdateWasm { wasm_hash: *new_wasm_hash });
        self.events.upgraded(new_wasm_hash);
        Ok(())
    }

    /// Reject with `InvalidPlayerLimits` unless `2 <= min_players <= max_players`.
    pub fn validate_player_limits(min_players: u32, max_players: u32) -> (r: Result<(), ArenaError>)
        ensures
            r == (if player_limits_valid(min_players, max_players) {
                Ok::<(), ArenaError>(())
            } else {
                Err(ArenaError::InvalidPlayerLimits)
            }),
    {
        if min_players < MIN_PLAYERS_TO_START || min_players > max_players {
            return Err(ArenaError::InvalidPlayerLimits);
        }
        Ok(())
    }

    /// Configure the player bounds used by future joins and round starts.
    pub fn configure_player_limits(&mut self, min_players: u32, max_players: u32) -> (r: Result<
        (),
        ArenaError,
    >)
        ensures
            old(self)@.storage.config is None ==> r == Err::<(), ArenaError>(
                ArenaError::NotInitialized,
            ) && final(self)@ == old(self)@,
            old(self)@.storage.config is Some && !player_limits_valid(min_players, max_players)
                ==> r == Err::<(), ArenaError>(ArenaError::InvalidPlayerLimits) && final(self)@
                == old(self)@,
            old(self)@.storage.config is Some && player_limits_valid(min_players, max_players)
                ==> r is Ok && final(self)@ == (ArenaContractView {
                storage: ArenaStorageView {
                    min_players: Some(min_players),
                    max_players: Some(max_players),
                    ..old(self)@.storage
                },
                events: old(self)@.events.push(
                    ArenaEvent::PlayerLimitsConfigured { min_players, max_players },
                ),
                calls: old(self)@.calls,
            }),
    {
        let _config = self.storage.load_config()?;
        Self::validate_player_limits(min_players, max_players)?;
        self.storage.save_player_limits(min_players, max_players);
        self.events.player_limits_configured(min_players, max_players);
        Ok(())
    }

    /// Ban (`banned == true`) or unban a player; existing player state is not
    /// touched, so a ban does not eliminate a player who already joined.
    fn set_ban(&mut self, player: AccountId, banned: bool) -> (r: Result<(), ArenaError>)
        ensures
            old(self)@.storage.config is None ==> r == Err::<(), ArenaError>(
                ArenaError::NotInitialized,
            ) && final(self)@ == old(self)@,
            old(self)@.storage.config matches Some(c) ==> r is Ok && final(self)@ == (
            ArenaContractView {
                storage: ArenaStorageView {
                    banned: old(self)@.storage.banned.insert(player, banned),
                    ..old(self)@.storage
                },
                events: old(self)@.events.push(
                    if banned {
                        ArenaEvent::PlayerBanned { admin: c.admin, player }
                    } else {
                        ArenaEvent::PlayerUnbanned { admin: c.admin, player }
                    },
                ),
                calls: old(self)@.calls,
            }),
    {
        let config = self.storage.load_config()?;
        self.storage.set_player_banned(player, banned);
        if banned {
            self.events.player_banned(config.admin, player);
        } else {
            self.events.player_unbanned(config.admin, player);
        }
        Ok(())
    }

    /// Ban a player from joining this arena.
    pub fn ban_player(&mut self, player: AccountId) -> (r: Result<(), ArenaError>)
        ensures
            old(self)@.storage.config is None ==> r == Err::<(), ArenaError>(
                ArenaError::NotInitialized,
            ) && final(self)@ == old(self)@,
            old(self)@.storage.config matches Some(c) ==> r is Ok && final(self)@ == (
            ArenaContractView {
                storage: ArenaStorageView {
                    banned: old(self)@.storage.banned.insert(player, true),
                    ..old(self)@.storage
                },
                events: old(self)@.events.push(ArenaEvent::PlayerBanned { admin: c.admin, player }),
                calls: old(self)@.calls,
            }),
    {
        self.set_ban(player, true)
    }

    /// Remove a player's join ban.
    pub fn unban_player(&mut self, player: AccountId) -> (r: Result<(), ArenaError>)
        ensures
            old(self)@.storage.config is None ==> r == Err::<(), ArenaError>(
                ArenaError::NotInitialized,
            ) && final(self)@ == old(self)@,
            old(self)@.storage.config matches Some(c) ==> r is Ok && final(self)@ == (
            ArenaContractView {
                storage: ArenaStorageView {
                    banned: old(self)@.storage.banned.insert(player, false),
                    ..old(self)@.storage
                },
                events: old(self)@.events.push(
                    ArenaEvent::PlayerUnbanned { admin: c.admin, player },
                ),
                calls: old(self)@.calls,
            }),
    {
        self.set_ban(player, false)
    }

    /// Whether a player is currently banned from joining.
    pub fn is_player_banned(&self, player: AccountId) -> (b: bool)
        ensures
            b == (self@.storage.banned.contains_key(player) && self@.storage.banned[player]),
    {
        self.storage.is_player_banned(player)
    }

    /// Reject with `ContractPaused` while the circuit breaker is set.
    pub fn require_not_paused(config: &ArenaConfig) -> (r: Result<(), ArenaError>)
        ensures
            r == (if config.paused {
                Err::<(), ArenaError>(ArenaError::ContractPaused)
            } else {
                Ok(())
            }),
    {
        if config.paused {
            return Err(ArenaError::ContractPaused);
        }
        Ok(())
    }
}


/// Whether a player is banned in a stored state.
pub open spec fn is_banned(s: ArenaStorageView, player: AccountId) -> bool {
    s.banned.contains_key(player) && s.banned[player]
}

/// Why `join_arena` would refuse `player`, if it would.
pub open spec fn join_rejection(s: ArenaStorageView, player: AccountId) -> Option<ArenaError> {
    match s.config {
        None => Some(ArenaError::NotInitialized),
        Some(c) => if c.paused {
            Some(ArenaError::ContractPaused)
        } else if c.state != GameState::Open {
            Some(ArenaError::InvalidGameState)
        } else if player == c.admin {
            Some(ArenaError::CreatorCannotJoin)
        } else if is_banned(s, player) {
            Some(ArenaError::PlayerBanned)
        } else if s.max_players matches Some(m) && c.player_count >= m {
            Some(ArenaError::ArenaFull)
        } else if s.players.contains(player) {
            Some(ArenaError::AlreadyJoined)
        } else {
            None
        },
    }
}

/// Why a reveal of `choice` by `player`, whose commitment preimage hashes
/// to `digest`, would be refused at time `now`, if it would.
pub open spec fn reveal_rejection(
    s: ArenaStorageView,
    player: AccountId,
    digest: Seq<u8>,
    now: u64,
) -> Option<ArenaError> {
    match s.config {
        None => Some(ArenaError::NotInitialized),
        Some(c) => if c.paused {
            Some(ArenaError::ContractPaused)
        } else if choice_for(s, player, current_round(c)) is Some {
            Some(ArenaError::ChoiceAlreadyRevealed)
        } else if now < c.commit_deadline {
            Some(ArenaError::RoundNotActive)
        } else if commitment_for(s, player, current_round(c)) is None {
            Some(ArenaError::MissingCommitment)
        } else if commitment_for(s, player, current_round(c))->0@ != digest {
            Some(ArenaError::InvalidReveal)
        } else {
            None
        },
    }
}

/// Why `start_round` would refuse to start a round, if it would.
pub open spec fn start_round_rejection(s: ArenaStorageView) -> Option<ArenaError> {
    match s.config {
        None => Some(ArenaError::NotInitialized),
        Some(c) => if c.paused {
            Some(ArenaError::ContractPaused)
        } else if c.state != GameState::Open && c.state != GameState::Finished {
            Some(ArenaError::InvalidGameState)
        } else if c.player_count < min_players_or_default(s) {
            Some(ArenaError::NotEnoughPlayers)
        } else {
            None
        },
    }
}

/// The start index of a page of `get_players`.
pub open spec fn page_start(page: u32) -> int {
    if page * PAGE_SIZE > u32::MAX {
        u32::MAX as int
    } else {
        page * PAGE_SIZE
    }
}

/// The end index (exclusive) of a page of `get_players` over `len` players.
pub open spec fn page_end(page: u32, len: nat) -> int {
    if page_start(page) + PAGE_SIZE < len {
        page_start(page) + PAGE_SIZE
    } else {
        len as int
    }
}

/// The refunds of a cancelled arena: one entry fee to each entry of the
/// player list, in order.
pub open spec fn refund_calls(players: Seq<AccountId>, fee: i128) -> Seq<ArenaCall> {
    players.map_values(|p: AccountId| ArenaCall::TransferFromArena { to: p, amount: fee })
}

/// Whether two 32-byte strings are equal.
pub fn bytes32_equal(a: &[u8; 32], b: &[u8; 32]) -> (r: bool)
    ensures
        r == (a@ == b@),
{
    let mut i: usize = 0;
    while i < 32
        invariant
            i <= 32,
            a@.len() == 32,
            b@.len() == 32,
            forall|j: int| 0 <= j < i ==> a@[j] == b@[j],
        decreases 32 - i,
    {
        if a[i] != b[i] {
            return false;
        }
        i += 1;
    }
    assert(a@ =~= b@);
    true
}

impl ArenaContract {
    /// Join the arena by staking the configured entry fee. A player already
    /// in the player list is refused with `AlreadyJoined`.
    ///
    /// On success the entry fee moves from the player to the arena and on
    /// into the yield vault, the recorded vault balance grows by the fee
    /// (saturating), the player is appended to the player list as active,
    /// and `PlayerJoined` reports the new number of players.
    pub fn join_arena(&mut self, player: AccountId) -> (r: Result<(), ArenaError>)
        requires
            old(self)@.storage.players.len() < u32::MAX,
        ensures
            join_rejection(old(self)@.storage, player) matches Some(e) ==> r == Err::<
                (),
                ArenaError,
            >(e) && final(self)@ == old(self)@,
            join_rejection(old(self)@.storage, player) is None ==> r is Ok && ({
                let s = old(self)@.storage;
                let c = s.config->0;
                let count = (s.players.len() + 1) as u32;
                final(self)@ == ArenaContractView {
                    storage: ArenaStorageView {
                        players: s.players.push(player),
                        player_states: s.player_states.insert(
                            player,
                            PlayerState { active: true, rounds_survived: 0 },
                        ),
                        config: Some(ArenaConfig { player_count: count, ..c }),
                        last_vault_balance: Some(
                            clamp_i128(
                                super::storage::last_vault_balance_or_zero(s) + c.entry_fee,
                            ),
                        ),
                        ..s
                    },
                    events: old(self)@.events.push(
                        ArenaEvent::PlayerJoined { player, player_count: count },
                    ),
                    calls: old(self)@.calls.push(
                        ArenaCall::TransferToArena { from: player, amount: c.entry_fee },
                    ).push(ArenaCall::VaultDeposit { amount: c.entry_fee }),
                }
            }),
    {
        let config = self.storage.load_config()?;
        Self::require_not_paused(&config)?;
        if config.state != GameState::Open {
            return Err(ArenaError::InvalidGameState);
        }
        if player == config.admin {
            return Err(ArenaError::CreatorCannotJoin);
        }
        if self.storage.is_player_banned(player) {
            return Err(ArenaError::PlayerBanned);
        }
        if let Some(max_players) = self.storage.load_max_players() {
            if config.player_count >= max_players {
                return Err(ArenaError::ArenaFull);
            }
        }
        if self.storage.has_joined(player) {
            return Err(ArenaError::AlreadyJoined);
        }
        self.calls.push(ArenaCall::TransferToArena { from: player, amount: config.entry_fee });
        self.calls.push(ArenaCall::VaultDeposit { amount: config.entry_fee });
        let baseline = saturating_add_i128(self.storage.load_last_vault_balance(), config.entry_fee);
        self.storage.save_last_vault_balance(baseline);
        self.storage.add_player(player);
        let count = self.storage.players.len() as u32;
        self.events.player_joined(player, count);
        Ok(())
    }

    /// Submit a blinded commitment (SHA-256 of the choice byte followed by a
    /// secret salt) for the current round.
    pub fn submit_commitment(&mut self, player: AccountId, commitment: &[u8; 32]) -> (r: Result<
        (),
        ArenaError,
    >)
        ensures
            old(self)@.storage.config is None ==> r == Err::<(), ArenaError>(
                ArenaError::NotInitialized,
            ) && final(self)@ == old(self)@,
            old(self)@.storage.config is Some && old(self)@.storage.config->0.paused ==> r == Err::<(), ArenaError>(
                ArenaError::ContractPaused,
            ) && final(self)@ == old(self)@,
            old(self)@.storage.config is Some && !old(self)@.storage.config->0.paused ==> r is Ok && final(self)@ == (
            ArenaContractView {
                storage: ArenaStorageView {
                    commitments: old(self)@.storage.commitments.insert(
                        player,
                        (current_round(old(self)@.storage.config->0), *commitment),
                    ),
                    ..old(self)@.storage
                },
                ..old(self)@
            }),
    {
        let config = self.storage.load_config()?;
        Self::require_not_paused(&config)?;
        let round = if config.round_count == u32::MAX {
            u32::MAX
        } else {
            config.round_count + 1
        };
        self.storage.save_commitment(player, round, commitment);
        Ok(())
    }

    /// The commitment of a choice and a salt: SHA-256 of the choice byte
    /// followed by the salt.
    pub fn compute_commitment(env: &soroban_sdk::Env, choice: Choice, salt: &[u8; 32]) -> (c: [u8;
        32])
        ensures
            c@ == expected_commitment(choice, salt@),
    {
        let mut preimage: Vec<u8> = Vec::new();
        preimage.push(choice.to_byte());
        let mut i: usize = 0;
        while i < 32
            invariant
                i <= 32,
                salt@.len() == 32,
                preimage@ == seq![choice_byte(choice)] + salt@.take(i as int),
            decreases 32 - i,
        {
            preimage.push(salt[i]);
            i += 1;
            assert(preimage@ =~= seq![choice_byte(choice)] + salt@.take(i as int));
        }
        assert(salt@.take(32) =~= salt@);
        sha256(env, preimage.as_slice())
    }

    /// Record a reveal whose commitment preimage (choice byte followed by
    /// the salt) hashes to `digest`.
    ///
    /// Refused with `ChoiceAlreadyRevealed` when the player already revealed
    /// for the current round, with `RoundNotActive` before the commit
    /// deadline, with `MissingCommitment` without a commitment for the
    /// current round, and with `InvalidReveal` when `digest` differs from the
    /// commitment. Otherwise the choice is recorded for the current round.
    pub fn reveal_committed_choice(
        &mut self,
        player: AccountId,
        choice: Choice,
        digest: &[u8; 32],
        now: u64,
    ) -> (r: Result<(), ArenaError>)
        ensures
            reveal_rejection(old(self)@.storage, player, digest@, now) matches Some(e) ==> r
                == Err::<(), ArenaError>(e) && final(self)@ == old(self)@,
            reveal_rejection(old(self)@.storage, player, digest@, now) is None ==> r is Ok && ({
                let s = old(self)@.storage;
                final(self)@ == ArenaContractView {
                    storage: ArenaStorageView {
                        choices: s.choices.insert(player, (current_round(s.config->0), choice)),
                        ..s
                    },
                    ..old(self)@
                }
            }),
    {
        let config = self.storage.load_config()?;
        Self::require_not_paused(&config)?;
        let round = if config.round_count == u32::MAX {
            u32::MAX
        } else {
            config.round_count + 1
        };
        if self.storage.load_choice(player, round).is_some() {
            return Err(ArenaError::ChoiceAlreadyRevealed);
        }
        if now < config.commit_deadline {
            return Err(ArenaError::RoundNotActive);
        }
        let commitment = match self.storage.load_commitment(player, round) {
            Some(c) => c,
            None => return Err(ArenaError::MissingCommitment),
        };
        if !bytes32_equal(&commitment, digest) {
            return Err(ArenaError::InvalidReveal);
        }
        self.storage.save_choice(player, round, &choice);
        Ok(())
    }

    /// Reveal the choice committed with `submit_commitment`: the commitment
    /// must equal SHA-256 of the choice byte followed by `salt`, and reveals
    /// are only accepted from the commit deadline on.
    pub fn reveal_choice(
        &mut self,
        env: &soroban_sdk::Env,
        player: AccountId,
        choice: Choice,
        salt: &[u8; 32],
        now: u64,
    ) -> (r: Result<(), ArenaError>)
        ensures
            reveal_rejection(old(self)@.storage, player, expected_commitment(choice, salt@), now)
                matches Some(e) ==> r == Err::<(), ArenaError>(e) && final(self)@ == old(self)@,
            reveal_rejection(old(self)@.storage, player, expected_commitment(choice, salt@), now)
                is None ==> r is Ok && ({
                let s = old(self)@.storage;
                final(self)@ == ArenaContractView {
                    storage: ArenaStorageView {
                        choices: s.choices.insert(player, (current_round(s.config->0), choice)),
                        ..s
                    },
                    ..old(self)@
                }
            }),
    {
        let digest = Self::compute_commitment(env, choice, salt);
        self.reveal_committed_choice(player, choice, &digest, now)
    }

    /// Cancel the arena before play and refund every entry fee.
    ///
    /// Only while `Open`: the state becomes `Cancelled`, the principal is
    /// withdrawn from the vault when anyone joined, and each entry of the
    /// player list is refunded the entry fee.
    pub fn cancel_arena(&mut self) -> (r: Result<(), ArenaError>)
        ensures
            old(self)@.storage.config is None ==> r == Err::<(), ArenaError>(
                ArenaError::NotInitialized,
            ) && final(self)@ == old(self)@,
            old(self)@.storage.config is Some && old(self)@.storage.config->0.paused ==> r == Err::<(), ArenaError>(
                ArenaError::ContractPaused,
            ) && final(self)@ == old(self)@,
            old(self)@.storage.config is Some && !old(self)@.storage.config->0.paused && old(self)@.storage.config->0.state != GameState::Open
                ==> r == Err::<(), ArenaError>(ArenaError::InvalidGameState) && final(self)@ == old(self)@,
            old(self)@.storage.config is Some && !old(self)@.storage.config->0.paused && old(self)@.storage.config->0.state == GameState::Open
                ==> r is Ok && final(self)@ == (ArenaContractView {
                storage: ArenaStorageView {
                    config: Some(ArenaConfig { state: GameState::Cancelled, ..old(self)@.storage.config->0 }),
                    ..old(self)@.storage
                },
                events: old(self)@.events,
                calls: old(self)@.calls + (if old(self)@.storage.config->0.player_count > 0 {
                    seq![ArenaCall::VaultWithdrawAll]
                } else {
                    Seq::empty()
                }) + refund_calls(old(self)@.storage.players, old(self)@.storage.config->0.entry_fee),
            }),
    {
        let config = self.storage.load_config()?;
        Self::require_not_paused(&config)?;
        ensure_state(&config.state, &GameState::Open, ArenaError::InvalidGameState)?;
        let cancelled = ArenaConfig { state: GameState::Cancelled, ..config };
        self.storage.save_config(&cancelled);
        let ghost calls0 = self.calls@;
        if config.player_count > 0 {
            self.calls.push(ArenaCall::VaultWithdrawAll);
        }
        let ghost calls1 = self.calls@;
        let ghost players = self.storage.players@;
        let ghost storage1 = self.storage@;
        let ghost events1 = self.events.log@;
        let mut i: usize = 0;
        while i < self.storage.players.len()
            invariant
                i <= players.len(),
                self.storage.players@ == players,
                self.storage@ == storage1,
                self.events.log@ == events1,
                self.calls@ == calls1 + refund_calls(players.take(i as int), config.entry_fee),
            decreases players.len() - i,
        {
            let p = self.storage.players[i];
            self.calls.push(ArenaCall::TransferFromArena { to: p, amount: config.entry_fee });
            i += 1;
            assert(players.take(i as int) =~= players.take(i - 1).push(p));
            assert(self.calls@ =~= calls1 + refund_calls(players.take(i as int), config.entry_fee));
        }
        assert(players.take(i as int) =~= players);
        assert(self.calls@ =~= calls0 + (if config.player_count > 0 {
            seq![ArenaCall::VaultWithdrawAll]
        } else {
            Seq::empty()
        }) + refund_calls(players, config.entry_fee));
        assert(self.storage@ == ArenaStorageView { config: Some(cancelled), ..old(self)@.storage });
        assert(self.events.log@ == old(self)@.events);
        Ok(())
    }

    /// A page of players with their current state: page `page` holds the
    /// players at positions `[page * 50, page * 50 + 50)` of the join order
    /// (the start saturating at `u32::MAX`), and is empty past the end.
    /// Players without a stored state are reported inactive.
    pub fn get_players(&self, page: u32) -> (r: Vec<(AccountId, PlayerState)>)
        ensures
            r@.len() == (if page_end(page, self@.storage.players.len()) > page_start(page) {
                page_end(page, self@.storage.players.len()) - page_start(page)
            } else {
                0
            }),
            forall|j: int|
                #![trigger r@[j]]
                0 <= j < r@.len() ==> ({
                    let p = self@.storage.players[page_start(page) + j];
                    r@[j] == (p, player_state_or_default(self@.storage, p))
                }),
    {
        let page64 = page as u64;
        assert(page64 * 50 <= 4294967295u64 * 50) by (nonlinear_arith)
            requires
                page64 <= 4294967295u64,
        ;
        let start: u64 = if page64 * (PAGE_SIZE as u64) > u32::MAX as u64 {
            u32::MAX as u64
        } else {
            page64 * (PAGE_SIZE as u64)
        };
        let len = self.storage.players.len() as u64;
        let end: u64 = if start + (PAGE_SIZE as u64) < len {
            start + (PAGE_SIZE as u64)
        } else {
            len
        };
        let mut result: Vec<(AccountId, PlayerState)> = Vec::new();
        if end <= start {
            return result;
        }
        let start_index = start as usize;
        let end_index = end as usize;
        let mut i: usize = start_index;
        while i < end_index
            invariant
                start_index == page_start(page),
                end_index == page_end(page, self@.storage.players.len()),
                end_index <= self@.storage.players.len(),
                start_index <= i <= end_index,
                result@.len() == i - start_index,
                forall|j: int|
                    #![trigger result@[j]]
                    0 <= j < result@.len() ==> ({
                        let p = self@.storage.players[page_start(page) + j];
                        result@[j] == (p, player_state_or_default(self@.storage, p))
                    }),
            decreases end_index - i,
        {
            let addr = self.storage.players[i];
            let state = match self.storage.load_player(addr) {
                Some(s) => s,
                None => PlayerState::absent(),
            };
            let ghost before = result@;
            result.push((addr, state));
            assert forall|j: int| 0 <= j < result@.len() implies #[trigger] result@[j] == ({
                let p = self@.storage.players[page_start(page) + j];
                (p, player_state_or_default(self@.storage, p))
            }) by {
                if j < before.len() {
                    assert(result@[j] == before[j]);
                } else {
                    assert(page_start(page) + j == i);
                }
            }
            i += 1;
        }
        result
    }

    /// The total number of players who have ever joined; zero before
    /// initialization.
    pub fn player_count(&self) -> (n: u32)
        ensures
            n == (match self@.storage.config {
                Some(c) => c.player_count,
                None => 0,
            }),
    {
        match self.storage.load_config() {
            Ok(c) => c.player_count,
            Err(_) => 0,
        }
    }

    /// Start a commit-reveal round at time `now` lasting `duration_seconds`.
    ///
    /// Only between rounds (`Open`, or `Finished`) and with at least the
    /// configured minimum number of players: the arena becomes `Active`, the round start and duration are
    /// recorded, and `GameStarted` reports the number of the round.
    pub fn start_round(&mut self, duration_seconds: u64, now: u64) -> (r: Result<(), ArenaError>)
        ensures
            start_round_rejection(old(self)@.storage) matches Some(e) ==> r == Err::<
                (),
                ArenaError,
            >(e) && final(self)@ == old(self)@,
            start_round_rejection(old(self)@.storage) is None ==> r is Ok && ({
                let s = old(self)@.storage;
                let c = s.config->0;
                final(self)@ == ArenaContractView {
                    storage: ArenaStorageView {
                        config: Some(ArenaConfig { state: GameState::Active, ..c }),
                        round_start: Some(now),
                        round_duration: Some(duration_seconds),
                        ..s
                    },
                    events: old(self)@.events.push(
                        ArenaEvent::GameStarted { round: current_round(c), duration_seconds },
                    ),
                    calls: old(self)@.calls,
                }
            }),
    {
        let config = self.storage.load_config()?;
        Self::require_not_paused(&config)?;
        if config.state != GameState::Open && config.state != GameState::Finished {
            return Err(ArenaError::InvalidGameState);
        }
        if config.player_count < self.storage.load_min_players() {
            return Err(ArenaError::NotEnoughPlayers);
        }
        let active = ArenaConfig { state: GameState::Active, ..config };
        self.storage.save_config(&active);
        self.storage.save_round_start(now);
        self.storage.save_round_duration(duration_seconds);
        let round = if config.round_count == u32::MAX {
            u32::MAX
        } else {
            config.round_count + 1
        };
        self.events.game_started(round, duration_seconds);
        Ok(())
    }

    /// Propose a new admin; control changes only when it is accepted.
    pub fn propose_admin(&mut self, new_admin: AccountId) -> (r: Result<(), ArenaError>)
        ensures
            old(self)@.storage.config is None ==> r == Err::<(), ArenaError>(
                ArenaError::NotInitialized,
            ) && final(self)@ == old(self)@,
            old(self)@.storage.config is Some && old(self)@.storage.config->0.paused ==> r == Err::<(), ArenaError>(
                ArenaError::ContractPaused,
            ) && final(self)@ == old(self)@,
            old(self)@.storage.config is Some && !old(self)@.storage.config->0.paused ==> r is Ok && final(self)@ == (
            ArenaContractView {
                storage: ArenaStorageView {
                    pending_admin: Some(PendingAdmin { new_admin }),
                    ..old(self)@.storage
                },
                ..old(self)@
            }),
    {
        let config = self.storage.load_config()?;
        Self::require_not_paused(&config)?;
        self.storage.save_pending_admin(&PendingAdmin { new_admin });
        Ok(())
    }

    /// Another name for `propose_admin`.
    pub fn change_admin(&mut self, new_admin: AccountId) -> (r: Result<(), ArenaError>)
        ensures
            old(self)@.storage.config is None ==> r == Err::<(), ArenaError>(
                ArenaError::NotInitialized,
            ) && final(self)@ == old(self)@,
            old(self)@.storage.config is Some && old(self)@.storage.config->0.paused ==> r == Err::<(), ArenaError>(
                ArenaError::ContractPaused,
            ) && final(self)@ == old(self)@,
            old(self)@.storage.config is Some && !old(self)@.storage.config->0.paused ==> r is Ok && final(self)@ == (
            ArenaContractView {
                storage: ArenaStorageView {
                    pending_admin: Some(PendingAdmin { new_admin }),
                    ..old(self)@.storage
                },
                ..old(self)@
            }),
    {
        self.propose_admin(new_admin)
    }

    /// Accept the pending admin transfer: the proposed admin becomes the
    /// admin and the proposal is deleted.
    pub fn accept_admin(&mut self) -> (r: Result<(), ArenaError>)
        ensures
            old(self)@.storage.pending_admin is None ==> r == Err::<(), ArenaError>(
                ArenaError::NoPendingAdmin,
            ) && final(self)@ == old(self)@,
            old(self)@.storage.pending_admin is Some && old(self)@.storage.config is None ==> r
                == Err::<(), ArenaError>(ArenaError::NotInitialized) && final(self)@ == old(self)@,
            old(self)@.storage.pending_admin is Some && old(self)@.storage.config is Some
                && old(self)@.storage.config->0.paused ==> r == Err::<(), ArenaError>(ArenaError::ContractPaused) && final(self)@ == old(self)@,
            ({
                let s = old(self)@.storage;
                s.pending_admin is Some && s.config is Some && !s.config->0.paused ==> {
                    let p = s.pending_admin->0;
                    let c = s.config->0;
                    r is Ok && final(self)@ == (ArenaContractView {
                        storage: ArenaStorageView {
                            config: Some(ArenaConfig { admin: p.new_admin, ..c }),
                            pending_admin: None,
                            ..s
                        },
                        events: old(self)@.events.push(
                            ArenaEvent::AdminChanged { old_admin: c.admin, new_admin: p.new_admin },
                        ),
                        calls: old(self)@.calls,
                    })
                }
            }),
    {
        let pending = match self.storage.load_pending_admin() {
            Some(p) => p,
            None => return Err(ArenaError::NoPendingAdmin),
        };
        let config = self.storage.load_config()?;
        Self::require_not_paused(&config)?;
        let old_admin = config.admin;
        let updated = ArenaConfig { admin: pending.new_admin, ..config };
        self.storage.save_config(&updated);
        self.storage.delete_pending_admin();
        self.events.admin_changed(old_admin, pending.new_admin);
        Ok(())
    }

    /// Pause the arena for `reason`: gameplay entry points reject until
    /// `unpause`.
    pub fn pause(&mut self, reason: String) -> (r: Result<(), ArenaError>)
        ensures
            old(self)@.storage.config is None ==> r == Err::<(), ArenaError>(
                ArenaError::NotInitialized,
            ) && final(self)@ == old(self)@,
            old(self)@.storage.config matches Some(c) ==> r is Ok && final(self)@ == (
            ArenaContractView {
                storage: ArenaStorageView {
                    config: Some(ArenaConfig { paused: true, ..c }),
                    ..old(self)@.storage
                },
                events: old(self)@.events.push(ArenaEvent::Paused { admin: c.admin, reason }),
                calls: old(self)@.calls,
            }),
    {
        let config = self.storage.load_config()?;
        let updated = ArenaConfig { paused: true, ..config };
        self.storage.save_config(&updated);
        self.events.paused(config.admin, reason);
        Ok(())
    }

    /// Resume normal operation after a `pause`.
    pub fn unpause(&mut self) -> (r: Result<(), ArenaError>)
        ensures
            old(self)@.storage.config is None ==> r == Err::<(), ArenaError>(
                ArenaError::NotInitialized,
            ) && final(self)@ == old(self)@,
            old(self)@.storage.config matches Some(c) ==> r is Ok && final(self)@ == (
            ArenaContractView {
                storage: ArenaStorageView {
                    config: Some(ArenaConfig { paused: false, ..c }),
                    ..old(self)@.storage
                },
                events: old(self)@.events.push(ArenaEvent::Unpaused { admin: c.admin }),
                calls: old(self)@.calls,
            }),
    {
        let config = self.storage.load_config()?;
        let updated = ArenaConfig { paused: false, ..config };
        self.storage.save_config(&updated);
        self.events.unpaused(config.admin);
        Ok(())
    }

    /// The cumulative yield of all resolved rounds; zero before
    /// initialization.
    pub fn get_total_yield(&self) -> (y: i128)
        ensures
            y == (match self@.storage.config {
                Some(c) => c.cumulative_yield,
                None => 0,
            }),
    {
        match self.storage.load_config() {
            Ok(c) => c.cumulative_yield,
            Err(_) => 0,
        }
    }

    /// The yield snapshot recorded when `round` was resolved.
    pub fn get_yield_snapshot(&self, round: u32) -> (r: Option<YieldSnapshot>)
        ensures
            r == (if self@.storage.yield_snapshots.contains_key(round) {
                Some(self@.storage.yield_snapshots[round])
            } else {
                None
            }),
    {
        self.storage.load_yield_snapshot(round)
    }

    /// The resolution result recorded when `round` was resolved.
    pub fn get_round_result(&self, round: u32) -> (r: Option<RoundResult>)
        ensures
            r == (if self@.storage.round_results.contains_key(round) {
                Some(self@.storage.round_results[round])
            } else {
                None
            }),
    {
        self.storage.load_round_result(round)
    }
}

} // verus!
