//! The persistent state of a yield arena and the accessors that the entry
//! points read and write it through.

use vstd::prelude::*;

use std::collections::HashMap;

use super::types::{
    ArenaConfig, ArenaError, Choice, GameState, LeaderboardEntry, PendingAdmin, PendingUpgrade, PlayerState,
    RoundResult, YieldSnapshot,
};
use crate::AccountId;

verus! {

broadcast use vstd::std_specs::hash::group_hash_axioms;

/// Minimum number of players needed to start a round, unless configured.
pub const MIN_PLAYERS_TO_START: u32 = 2;

/// Leaderboard size used when none has been configured.
pub const DEFAULT_LEADERBOARD_LIMIT: u32 = 100;

/// The whole persistent state of one arena.
///
/// Commitments and choices are kept per player together with the round they
/// belong to; a value recorded for another round counts as absent.
#[derive(Clone)]
pub struct ArenaStorage {
    pub config: Option<ArenaConfig>,
    /// Every player that joined, in join order.
    pub players: Vec<AccountId>,
    pub player_states: HashMap<AccountId, PlayerState>,
    pub banned: HashMap<AccountId, bool>,
    pub min_players: Option<u32>,
    pub max_players: Option<u32>,
    pub commitments: HashMap<AccountId, (u32, [u8; 32])>,
    pub choices: HashMap<AccountId, (u32, Choice)>,
    pub yield_snapshots: HashMap<u32, YieldSnapshot>,
    pub round_results: HashMap<u32, RoundResult>,
    pub round_yield_bps: HashMap<u32, u32>,
    pub round_start: Option<u64>,
    pub round_duration: Option<u64>,
    pub last_vault_balance: Option<i128>,
    pub prize_claimed: bool,
    pub reentrancy_guard: bool,
    pub creator_active_pools: HashMap<AccountId, u32>,
    pub pending_admin: Option<PendingAdmin>,
    pub winner: Option<AccountId>,
    pub refund_claimed: HashMap<AccountId, bool>,
    pub leaderboard: Vec<LeaderboardEntry>,
    pub leaderboard_limit: Option<u32>,
    pub pending_upgrade: Option<PendingUpgrade>,
}

/// The mathematical view of an arena's persistent state.
pub struct ArenaStorageView {
    pub config: Option<ArenaConfig>,
    pub players: Seq<AccountId>,
    pub player_states: Map<AccountId, PlayerState>,
    pub banned: Map<AccountId, bool>,
    pub min_players: Option<u32>,
    pub max_players: Option<u32>,
    pub commitments: Map<AccountId, (u32, [u8; 32])>,
    pub choices: Map<AccountId, (u32, Choice)>,
    pub yield_snapshots: Map<u32, YieldSnapshot>,
    pub round_results: Map<u32, RoundResult>,
    pub round_yield_bps: Map<u32, u32>,
    pub round_start: Option<u64>,
    pub round_duration: Option<u64>,
    pub last_vault_balance: Option<i128>,
    pub prize_claimed: bool,
    pub reentrancy_guard: bool,
    pub creator_active_pools: Map<AccountId, u32>,
    pub pending_admin: Option<PendingAdmin>,
    pub winner: Option<AccountId>,
    pub refund_claimed: Map<AccountId, bool>,
    pub leaderboard: Seq<LeaderboardEntry>,
    pub leaderboard_limit: Option<u32>,
    pub pending_upgrade: Option<(Seq<u8>, u64)>,
}

impl View for ArenaStorage {
    type V = ArenaStorageView;

    open spec fn view(&self) -> ArenaStorageView {
        ArenaStorageView {
            config: self.config,
            players: self.players@,
            player_states: self.player_states@,
            banned: self.banned@,
            min_players: self.min_players,
            max_players: self.max_players,
            commitments: self.commitments@,
            choices: self.choices@,
            yield_snapshots: self.yield_snapshots@,
            round_results: self.round_results@,
            round_yield_bps: self.round_yield_bps@,
            round_start: self.round_start,
            round_duration: self.round_duration,
            last_vault_balance: self.last_vault_balance,
            prize_claimed: self.prize_claimed,
            reentrancy_guard: self.reentrancy_guard,
            creator_active_pools: self.creator_active_pools@,
            pending_admin: self.pending_admin,
            winner: self.winner,
            refund_claimed: self.refund_claimed@,
            leaderboard: self.leaderboard@,
            leaderboard_limit: self.leaderboard_limit,
            pending_upgrade: match self.pending_upgrade {
                Some(u) => Some((u.wasm_hash@, u.proposed_at)),
                None => None,
            },
        }
    }
}

/// A player's state as the entry points read it: absent players count as
/// inactive with no rounds survived.
pub open spec fn player_state_or_default(v: ArenaStorageView, p: AccountId) -> PlayerState {
    if v.player_states.contains_key(p) {
        v.player_states[p]
    } else {
        PlayerState { active: false, rounds_survived: 0 }
    }
}

/// The commitment a player made for `round`, if any.
pub open spec fn commitment_for(v: ArenaStorageView, p: AccountId, round: u32) -> Option<
    [u8; 32],
> {
    if v.commitments.contains_key(p) && v.commitments[p].0 == round {
        Some(v.commitments[p].1)
    } else {
        None
    }
}

/// The choice a player revealed for `round`, if any.
pub open spec fn choice_for(v: ArenaStorageView, p: AccountId, round: u32) -> Option<Choice> {
    if v.choices.contains_key(p) && v.choices[p].0 == round {
        Some(v.choices[p].1)
    } else {
        None
    }
}

/// The configured minimum number of players, or the default of two.
pub open spec fn min_players_or_default(v: ArenaStorageView) -> u32 {
    match v.min_players {
        Some(m) => m,
        None => MIN_PLAYERS_TO_START,
    }
}

/// The recorded vault balance, or zero when none has been recorded.
pub open spec fn last_vault_balance_or_zero(v: ArenaStorageView) -> i128 {
    match v.last_vault_balance {
        Some(b) => b,
        None => 0,
    }
}

impl ArenaStorage {
    /// An arena with nothing stored.
    pub fn new() -> (s: ArenaStorage)
        ensures
            s@.config is None,
            s@.players == Seq::<AccountId>::empty(),
            s@.player_states == Map::<AccountId, PlayerState>::empty(),
            s@.banned == Map::<AccountId, bool>::empty(),
            s@.min_players is None,
            s@.max_players is None,
            s@.commitments == Map::<AccountId, (u32, [u8; 32])>::empty(),
            s@.choices == Map::<AccountId, (u32, Choice)>::empty(),
            s@.yield_snapshots == Map::<u32, YieldSnapshot>::empty(),
            s@.round_results == Map::<u32, RoundResult>::empty(),
            s@.round_yield_bps == Map::<u32, u32>::empty(),
            s@.round_start is None,
            s@.round_duration is None,
            s@.last_vault_balance is None,
            !s@.prize_claimed,
            !s@.reentrancy_guard,
            s@.creator_active_pools == Map::<AccountId, u32>::empty(),
            s@.pending_admin is None,
            s@.winner is None,
            s@.refund_claimed == Map::<AccountId, bool>::empty(),
            s@.leaderboard == Seq::<LeaderboardEntry>::empty(),
            s@.leaderboard_limit is None,
            s@.pending_upgrade is None,
    {
        ArenaStorage {
            config: None,
            players: Vec::new(),
            player_states: HashMap::new(),
            banned: HashMap::new(),
            min_players: None,
            max_players: None,
            commitments: HashMap::new(),
            choices: HashMap::new(),
            yield_snapshots: HashMap::new(),
            round_results: HashMap::new(),
            round_yield_bps: HashMap::new(),
            round_start: None,
            round_duration: None,
            last_vault_balance: None,
            prize_claimed: false,
            reentrancy_guard: false,
            creator_active_pools: HashMap::new(),
            pending_admin: None,
            winner: None,
            refund_claimed: HashMap::new(),
            leaderboard: Vec::new(),
            leaderboard_limit: None,
            pending_upgrade: None,
        }
    }

    /// The arena configuration, or `NotInitialized` before `initialize`.
    pub fn load_config(&self) -> (r: Result<ArenaConfig, ArenaError>)
        ensures
            r == (match self@.config {
                Some(c) => Ok::<ArenaConfig, ArenaError>(c),
                None => Err(ArenaError::NotInitialized),
            }),
    {
        match self.config {
            Some(c) => Ok(c),
            None => Err(ArenaError::NotInitialized),
        }
    }

    pub fn save_config(&mut self, config: &ArenaConfig)
        ensures
            final(self)@ == (ArenaStorageView { config: Some(*config), ..old(self)@ }),
    {
        self.config = Some(*config);
    }

    pub fn has_config(&self) -> (b: bool)
        ensures
            b == self@.config is Some,
    {
        self.config.is_some()
    }

    /// Every player that has joined, in join order.
    pub fn load_all_players(&self) -> (players: Vec<AccountId>)
        ensures
            players@ == self@.players,
    {
        let players = self.players.clone();
        assert(players@ =~= self.players@);
        players
    }

    pub fn save_players(&mut self, players: &Vec<AccountId>)
        ensures
            final(self)@ == (ArenaStorageView { players: players@, ..old(self)@ }),
    {
        let copy = players.clone();
        assert(copy@ =~= players@);
        self.players = copy;
    }

    /// Record a new player: append it to the player list, mark it active
    /// with no rounds survived, and keep the configured player count equal
    /// to the length of the list.
    pub fn add_player(&mut self, player: AccountId)
        requires
            old(self)@.players.len() < u32::MAX,
        ensures
            final(self)@ == (ArenaStorageView {
                players: old(self)@.players.push(player),
                player_states: old(self)@.player_states.insert(
                    player,
                    PlayerState { active: true, rounds_survived: 0 },
                ),
                config: match old(self)@.config {
                    Some(c) => Some(
                        ArenaConfig { player_count: (old(self)@.players.len() + 1) as u32, ..c },
                    ),
                    None => None,
                },
                ..old(self)@
            }),
    {
        self.players.push(player);
        self.player_states.insert(player, PlayerState { active: true, rounds_survived: 0 });
        let count = self.players.len() as u32;
        if let Some(c) = self.config {
            self.config = Some(ArenaConfig { player_count: count, ..c });
        }
    }

    /// Whether `player` is in the player list.
    pub fn has_joined(&self, player: AccountId) -> (b: bool)
        ensures
            b == self@.players.contains(player),
    {
        let mut i: usize = 0;
        while i < self.players.len()
            invariant
                i <= self.players@.len(),
                forall|j: int| 0 <= j < i ==> self.players@[j] != player,
            decreases self.players@.len() - i,
        {
            if self.players[i] == player {
                return true;
            }
            i += 1;
        }
        false
    }

    /// A single player's state, or `None` if they never joined.
    pub fn load_player(&self, player: AccountId) -> (r: Option<PlayerState>)
        ensures
            r == (if self@.player_states.contains_key(player) {
                Some(self@.player_states[player])
            } else {
                None
            }),
    {
        match self.player_states.get(&player) {
            Some(s) => Some(*s),
            None => None,
        }
    }

    pub fn save_player(&mut self, player: AccountId, state: &PlayerState)
        ensures
            final(self)@ == (ArenaStorageView {
                player_states: old(self)@.player_states.insert(player, *state),
                ..old(self)@
            }),
    {
        self.player_states.insert(player, *state);
    }

    pub fn set_player_banned(&mut self, player: AccountId, banned: bool)
        ensures
            final(self)@ == (ArenaStorageView {
                banned: old(self)@.banned.insert(player, banned),
                ..old(self)@
            }),
    {
        self.banned.insert(player, banned);
    }

    pub fn is_player_banned(&self, player: AccountId) -> (b: bool)
        ensures
            b == (self@.banned.contains_key(player) && self@.banned[player]),
    {
        match self.banned.get(&player) {
            Some(b) => *b,
            None => false,
        }
    }

    pub fn save_player_limits(&mut self, min_players: u32, max_players: u32)
        ensures
            final(self)@ == (ArenaStorageView {
                min_players: Some(min_players),
                max_players: Some(max_players),
                ..old(self)@
            }),
    {
        self.min_players = Some(min_players);
        self.max_players = Some(max_players);
    }

    pub fn load_min_players(&self) -> (m: u32)
        ensures
            m == min_players_or_default(self@),
    {
        match self.min_players {
            Some(m) => m,
            None => MIN_PLAYERS_TO_START,
        }
    }

    pub fn load_max_players(&self) -> (m: Option<u32>)
        ensures
            m == self@.max_players,
    {
        self.max_players
    }

    pub fn save_commitment(&mut self, player: AccountId, round: u32, commitment: &[u8; 32])
        ensures
            final(self)@ == (ArenaStorageView {
                commitments: old(self)@.commitments.insert(player, (round, *commitment)),
                ..old(self)@
            }),
    {
        self.commitments.insert(player, (round, *commitment));
    }

    pub fn load_commitment(&self, player: AccountId, round: u32) -> (r: Option<[u8; 32]>)
        ensures
            r == commitment_for(self@, player, round),
    {
        match self.commitments.get(&player) {
            Some(entry) => if entry.0 == round {
                Some(entry.1)
            } else {
                None
            },
            None => None,
        }
    }

    pub fn save_choice(&mut self, player: AccountId, round: u32, choice: &Choice)
        ensures
            final(self)@ == (ArenaStorageView {
                choices: old(self)@.choices.insert(player, (round, *choice)),
                ..old(self)@
            }),
    {
        self.choices.insert(player, (round, *choice));
    }

    pub fn load_choice(&self, player: AccountId, round: u32) -> (r: Option<Choice>)
        ensures
            r == choice_for(self@, player, round),
    {
        match self.choices.get(&player) {
            Some(entry) => if entry.0 == round {
                Some(entry.1)
            } else {
                None
            },
            None => None,
        }
    }

    pub fn save_round_start(&mut self, timestamp: u64)
        ensures
            final(self)@ == (ArenaStorageView { round_start: Some(timestamp), ..old(self)@ }),
    {
        self.round_start = Some(timestamp);
    }

    pub fn load_round_start(&self) -> (r: Option<u64>)
        ensures
            r == self@.round_start,
    {
        self.round_start
    }

    pub fn save_round_duration(&mut self, duration_seconds: u64)
        ensures
            final(self)@ == (ArenaStorageView {
                round_duration: Some(duration_seconds),
                ..old(self)@
            }),
    {
        self.round_duration = Some(duration_seconds);
    }

    pub fn load_round_duration(&self) -> (d: u64)
        ensures
            d == (match self@.round_duration {
                Some(d) => d,
                None => 0,
            }),
    {
        match self.round_duration {
            Some(d) => d,
            None => 0,
        }
    }

    pub fn save_round_yield_bps(&mut self, round: u32, yield_bps: u32)
        ensures
            final(self)@ == (ArenaStorageView {
                round_yield_bps: old(self)@.round_yield_bps.insert(round, yield_bps),
                ..old(self)@
            }),
    {
        self.round_yield_bps.insert(round, yield_bps);
    }

    pub fn save_yield_snapshot(&mut self, round: u32, snapshot: &YieldSnapshot)
        ensures
            final(self)@ == (ArenaStorageView {
                yield_snapshots: old(self)@.yield_snapshots.insert(round, *snapshot),
                ..old(self)@
            }),
    {
        self.yield_snapshots.insert(round, *snapshot);
    }

    pub fn load_yield_snapshot(&self, round: u32) -> (r: Option<YieldSnapshot>)
        ensures
            r == (if self@.yield_snapshots.contains_key(round) {
                Some(self@.yield_snapshots[round])
            } else {
                None
            }),
    {
        match self.yield_snapshots.get(&round) {
            Some(s) => Some(*s),
            None => None,
        }
    }

    pub fn save_round_result(&mut self, round: u32, result: &RoundResult)
        ensures
            final(self)@ == (ArenaStorageView {
                round_results: old(self)@.round_results.insert(round, *result),
                ..old(self)@
            }),
    {
        self.round_results.insert(round, *result);
    }

    pub fn load_round_result(&self, round: u32) -> (r: Option<RoundResult>)
        ensures
            r == (if self@.round_results.contains_key(round) {
                Some(self@.round_results[round])
            } else {
                None
            }),
    {
        match self.round_results.get(&round) {
            Some(s) => Some(*s),
            None => None,
        }
    }

    pub fn save_last_vault_balance(&mut self, balance: i128)
        ensures
            final(self)@ == (ArenaStorageView { last_vault_balance: Some(balance), ..old(self)@ }),
    {
        self.last_vault_balance = Some(balance);
    }

    pub fn load_last_vault_balance(&self) -> (b: i128)
        ensures
            b == last_vault_balance_or_zero(self@),
    {
        match self.last_vault_balance {
            Some(b) => b,
            None => 0,
        }
    }

    /// Whether the prize of this arena has been claimed.
    pub fn prize_claimed(&self) -> (b: bool)
        ensures
            b == self@.prize_claimed,
    {
        self.prize_claimed
    }

    /// Persist the prize-claimed flag.
    pub fn mark_prize_claimed(&mut self)
        ensures
            final(self)@ == (ArenaStorageView { prize_claimed: true, ..old(self)@ }),
    {
        self.prize_claimed = true;
    }

    /// Whether a guarded entry point is already executing.
    pub fn reentrancy_guard_entered(&self) -> (b: bool)
        ensures
            b == self@.reentrancy_guard,
    {
        self.reentrancy_guard
    }

    /// Set the reentrancy guard, failing with `ReentrantCall` if it is set.
    pub fn enter_reentrancy_guard(&mut self) -> (r: Result<(), ArenaError>)
        ensures
            old(self)@.reentrancy_guard ==> r == Err::<(), ArenaError>(ArenaError::ReentrantCall)
                && final(self)@ == old(self)@,
            !old(self)@.reentrancy_guard ==> r is Ok && final(self)@ == (ArenaStorageView {
                reentrancy_guard: true,
                ..old(self)@
            }),
    {
        if self.reentrancy_guard {
            return Err(ArenaError::ReentrantCall);
        }
        self.reentrancy_guard = true;
        Ok(())
    }

    /// Clear the reentrancy guard.
    pub fn exit_reentrancy_guard(&mut self)
        ensures
            final(self)@ == (ArenaStorageView { reentrancy_guard: false, ..old(self)@ }),
    {
        self.reentrancy_guard = false;
    }

    pub fn load_creator_active_pools(&self, creator: AccountId) -> (n: u32)
        ensures
            n == (if self@.creator_active_pools.contains_key(creator) {
                self@.creator_active_pools[creator]
            } else {
                0
            }),
    {
        match self.creator_active_pools.get(&creator) {
            Some(n) => *n,
            None => 0,
        }
    }

    pub fn save_creator_active_pools(&mut self, creator: AccountId, active_pools: u32)
        ensures
            final(self)@ == (ArenaStorageView {
                creator_active_pools: old(self)@.creator_active_pools.insert(creator, active_pools),
                ..old(self)@
            }),
    {
        self.creator_active_pools.insert(creator, active_pools);
    }

    /// Add one to a creator's active pool count, saturating at `u32::MAX`.
    pub fn increment_creator_active_pools(&mut self, creator: AccountId)
        ensures
            ({
                let n = if old(self)@.creator_active_pools.contains_key(creator) {
                    old(self)@.creator_active_pools[creator]
                } else {
                    0
                };
                final(self)@ == (ArenaStorageView {
                    creator_active_pools: old(self)@.creator_active_pools.insert(
                        creator,
                        if n == u32::MAX { n } else { (n + 1) as u32 },
                    ),
                    ..old(self)@
                })
            }),
    {
        let n = self.load_creator_active_pools(creator);
        let next = if n == u32::MAX { n } else { n + 1 };
        self.save_creator_active_pools(creator, next);
    }

    /// Remove one from a creator's active pool count; a count of zero stays
    /// unchanged.
    pub fn decrement_creator_active_pools(&mut self, creator: AccountId)
        ensures
            ({
                let n = if old(self)@.creator_active_pools.contains_key(creator) {
                    old(self)@.creator_active_pools[creator]
                } else {
                    0
                };
                if n > 0 {
                    final(self)@ == (ArenaStorageView {
                        creator_active_pools: old(self)@.creator_active_pools.insert(
                            creator,
                            (n - 1) as u32,
                        ),
                        ..old(self)@
                    })
                } else {
                    final(self)@ == old(self)@
                }
            }),
    {
        let n = self.load_creator_active_pools(creator);
        if n > 0 {
            self.save_creator_active_pools(creator, n - 1);
        }
    }

    pub fn save_pending_admin(&mut self, pending: &PendingAdmin)
        ensures
            final(self)@ == (ArenaStorageView { pending_admin: Some(*pending), ..old(self)@ }),
    {
        self.pending_admin = Some(*pending);
    }

    pub fn load_pending_admin(&self) -> (r: Option<PendingAdmin>)
        ensures
            r == self@.pending_admin,
    {
        self.pending_admin
    }

    pub fn delete_pending_admin(&mut self)
        ensures
            final(self)@ == (ArenaStorageView { pending_admin: None, ..old(self)@ }),
    {
        self.pending_admin = None;
    }

    pub fn get_winner(&self) -> (r: Option<AccountId>)
        ensures
            r == self@.winner,
    {
        self.winner
    }

    pub fn set_winner(&mut self, winner: AccountId)
        ensures
            final(self)@ == (ArenaStorageView { winner: Some(winner), ..old(self)@ }),
    {
        self.winner = Some(winner);
    }

    pub fn is_refund_claimed(&self, player: AccountId) -> (b: bool)
        ensures
            b == (self@.refund_claimed.contains_key(player) && self@.refund_claimed[player]),
    {
        match self.refund_claimed.get(&player) {
            Some(b) => *b,
            None => false,
        }
    }

    pub fn set_refund_claimed(&mut self, player: AccountId)
        ensures
            final(self)@ == (ArenaStorageView {
                refund_claimed: old(self)@.refund_claimed.insert(player, true),
                ..old(self)@
            }),
    {
        self.refund_claimed.insert(player, true);
    }

    pub fn load_leaderboard(&self) -> (r: Vec<LeaderboardEntry>)
        ensures
            r@ == self@.leaderboard,
    {
        let mut out: Vec<LeaderboardEntry> = Vec::new();
        let mut i: usize = 0;
        while i < self.leaderboard.len()
            invariant
                i <= self.leaderboard@.len(),
                out@ == self@.leaderboard.take(i as int),
            decreases self.leaderboard@.len() - i,
        {
            out.push(self.leaderboard[i]);
            i += 1;
            assert(out@ =~= self@.leaderboard.take(i as int));
        }
        assert(self@.leaderboard.take(i as int) =~= self@.leaderboard);
        out
    }

    pub fn save_leaderboard(&mut self, leaderboard: Vec<LeaderboardEntry>)
        ensures
            final(self)@ == (ArenaStorageView { leaderboard: leaderboard@, ..old(self)@ }),
    {
        self.leaderboard = leaderboard;
    }

    pub fn load_leaderboard_limit(&self) -> (n: u32)
        ensures
            n == (match self@.leaderboard_limit {
                Some(n) => n,
                None => DEFAULT_LEADERBOARD_LIMIT,
            }),
    {
        match self.leaderboard_limit {
            Some(n) => n,
            None => DEFAULT_LEADERBOARD_LIMIT,
        }
    }

    pub fn save_leaderboard_limit(&mut self, limit: u32)
        ensures
            final(self)@ == (ArenaStorageView { leaderboard_limit: Some(limit), ..old(self)@ }),
    {
        self.leaderboard_limit = Some(limit);
    }

    pub fn save_pending_upgrade(&mut self, upgrade: &PendingUpgrade)
        ensures
            final(self)@ == (ArenaStorageView {
                pending_upgrade: Some((upgrade.wasm_hash@, upgrade.proposed_at)),
                ..old(self)@
            }),
    {
        self.pending_upgrade = Some(*upgrade);
    }

    pub fn load_pending_upgrade(&self) -> (r: Option<PendingUpgrade>)
        ensures
            match r {
                Some(u) => self@.pending_upgrade == Some((u.wasm_hash@, u.proposed_at)),
                None => self@.pending_upgrade is None,
            },
    {
        self.pending_upgrade
    }

    pub fn clear_pending_upgrade(&mut self)
        ensures
            final(self)@ == (ArenaStorageView { pending_upgrade: None, ..old(self)@ }),
    {
        self.pending_upgrade = None;
    }
}


/// The entries of a per-player map that remain after the entries of the
/// listed players tagged with `round` are removed.
pub open spec fn without_round<V>(
    m: Map<AccountId, (u32, V)>,
    players: Seq<AccountId>,
    round: u32,
) -> Map<AccountId, (u32, V)> {
    m.restrict(m.dom().filter(|k: AccountId| !(players.contains(k) && m[k].0 == round)))
}

impl ArenaStorage {
    /// Whether the game of an arena in `state` is over.
    pub fn is_terminal_pool_state(state: &GameState) -> (b: bool)
        ensures
            b == (*state == GameState::Finished || *state == GameState::Cancelled || *state
                == GameState::Settled),
    {
        match state {
            GameState::Finished | GameState::Cancelled | GameState::Settled => true,
            _ => false,
        }
    }

    /// Remove every player's choice and commitment for `round`.
    pub fn clear_round_data(&mut self, round: u32)
        ensures
            final(self)@ == (ArenaStorageView {
                commitments: without_round(old(self)@.commitments, old(self)@.players, round),
                choices: without_round(old(self)@.choices, old(self)@.players, round),
                ..old(self)@
            }),
    {
        let ghost s = self@;
        let ghost players = self@.players;
        assert(without_round(s.commitments, players.take(0), round) =~= s.commitments);
        assert(without_round(s.choices, players.take(0), round) =~= s.choices);
        let mut i: usize = 0;
        while i < self.players.len()
            invariant
                i <= players.len(),
                self@.players == players,
                self@ == (ArenaStorageView {
                    commitments: without_round(s.commitments, players.take(i as int), round),
                    choices: without_round(s.choices, players.take(i as int), round),
                    ..s
                }),
            decreases players.len() - i,
        {
            let p = self.players[i];
            let ghost before = players.take(i as int);
            let ghost after = players.take(i + 1);
            assert(after =~= before.push(p));
            let tagged_commitment = match self.commitments.get(&p) {
                Some(entry) => entry.0 == round,
                None => false,
            };
            if tagged_commitment {
                self.commitments.remove(&p);
            }
            let tagged_choice = match self.choices.get(&p) {
                Some(entry) => entry.0 == round,
                None => false,
            };
            if tagged_choice {
                self.choices.remove(&p);
            }
            assert(self@.commitments =~= without_round(s.commitments, after, round)) by {
                assert forall|k: AccountId| after.contains(k) <==> (before.contains(k) || k == p) by {
                    if after.contains(k) && k != p {
                        let j = choose|j: int| 0 <= j < after.len() && after[j] == k;
                        assert(before[j] == k);
                    }
                    if k == p {
                        assert(after[after.len() - 1] == p);
                    }
                    if before.contains(k) {
                        let j = choose|j: int| 0 <= j < before.len() && before[j] == k;
                        assert(after[j] == k);
                    }
                }
            }
            assert(self@.choices =~= without_round(s.choices, after, round)) by {
                assert forall|k: AccountId| after.contains(k) <==> (before.contains(k) || k == p) by {
                    if after.contains(k) && k != p {
                        let j = choose|j: int| 0 <= j < after.len() && after[j] == k;
                        assert(before[j] == k);
                    }
                    if k == p {
                        assert(after[after.len() - 1] == p);
                    }
                    if before.contains(k) {
                        let j = choose|j: int| 0 <= j < before.len() && before[j] == k;
                        assert(after[j] == k);
                    }
                }
            }
            i += 1;
        }
        assert(players.take(i as int) =~= players);
    }
}

} // verus!
