//! The persistent state of a fee arena and its accessors.

use vstd::prelude::*;

use std::collections::HashMap;

use super::errors::ArenaError;
use super::types::{ArenaConfig, Choice, GlobalStats, RwaYieldRecord};
use crate::AccountId;

verus! {

broadcast use vstd::std_specs::hash::group_hash_axioms;

/// The key under which per-player, per-round data is stored.
pub open spec fn round_key(player: AccountId, round: u32) -> u128 {
    (player * 0x1_0000_0000 + round) as u128
}

/// Computes `round_key`.
pub fn make_round_key(player: AccountId, round: u32) -> (k: u128)
    ensures
        k == round_key(player, round),
{
    (player as u128) * 0x1_0000_0000 + (round as u128)
}

/// Distinct players or rounds give distinct keys.
pub proof fn lemma_round_key_injective(p1: AccountId, r1: u32, p2: AccountId, r2: u32)
    ensures
        round_key(p1, r1) == round_key(p2, r2) ==> p1 == p2 && r1 == r2,
{
}

/// The whole persistent state of a fee arena.
#[derive(Clone)]
pub struct ArenaStorage {
    pub config: Option<ArenaConfig>,
    /// Every player that joined, in join order.
    pub players: Vec<AccountId>,
    /// Whether each player is still in the game.
    pub active: HashMap<AccountId, bool>,
    /// Each player's choice for the current round.
    pub choices: HashMap<AccountId, Choice>,
    pub round: u32,
    pub winner: Option<AccountId>,
    pub prize_claimed: bool,
    pub creator_stake: i128,
    pub refund_claimed: HashMap<AccountId, bool>,
    pub global_stats: GlobalStats,
    pub rwa_counter: u64,
    pub prize_pool: i128,
    pub rwa_yields: Vec<RwaYieldRecord>,
    pub commit_hashes: HashMap<u128, [u8; 32]>,
    pub revealed: HashMap<u128, bool>,
    pub pending_admin: Option<AccountId>,
    pub round_deadline: Option<u64>,
}

/// The mathematical view of a fee arena's persistent state.
pub struct ArenaStorageView {
    pub config: Option<ArenaConfig>,
    pub players: Seq<AccountId>,
    pub active: Map<AccountId, bool>,
    pub choices: Map<AccountId, Choice>,
    pub round: u32,
    pub winner: Option<AccountId>,
    pub prize_claimed: bool,
    pub creator_stake: i128,
    pub refund_claimed: Map<AccountId, bool>,
    pub global_stats: GlobalStats,
    pub rwa_counter: u64,
    pub prize_pool: i128,
    pub rwa_yields: Seq<RwaYieldRecord>,
    pub commit_hashes: Map<u128, [u8; 32]>,
    pub revealed: Map<u128, bool>,
    pub pending_admin: Option<AccountId>,
    pub round_deadline: Option<u64>,
}

impl View for ArenaStorage {
    type V = ArenaStorageView;

    open spec fn view(&self) -> ArenaStorageView {
        ArenaStorageView {
            config: self.config,
            players: self.players@,
            active: self.active@,
            choices: self.choices@,
            round: self.round,
            winner: self.winner,
            prize_claimed: self.prize_claimed,
            creator_stake: self.creator_stake,
            refund_claimed: self.refund_claimed@,
            global_stats: self.global_stats,
            rwa_counter: self.rwa_counter,
            prize_pool: self.prize_pool,
            rwa_yields: self.rwa_yields@,
            commit_hashes: self.commit_hashes@,
            revealed: self.revealed@,
            pending_admin: self.pending_admin,
            round_deadline: self.round_deadline,
        }
    }
}

/// A per-player map without the entries of the listed players.
pub open spec fn without_players<V>(m: Map<AccountId, V>, players: Seq<AccountId>) -> Map<
    AccountId,
    V,
> {
    m.restrict(m.dom().filter(|k: AccountId| !players.contains(k)))
}

/// The players of a prefix one longer are those of the prefix and the next
/// player.
pub proof fn lemma_take_one_more(players: Seq<AccountId>, i: int)
    requires
        0 <= i < players.len(),
    ensures
        forall|k: AccountId|
            #![trigger players.take(i + 1).contains(k)]
            players.take(i + 1).contains(k) <==> (players.take(i).contains(k) || k == players[i]),
{
    let before = players.take(i);
    let after = players.take(i + 1);
    assert forall|k: AccountId| after.contains(k) <==> (before.contains(k) || k == players[i]) by {
        if after.contains(k) && k != players[i] {
            let j = choose|j: int| 0 <= j < after.len() && after[j] == k;
            assert(before[j] == k);
        }
        if k == players[i] {
            assert(after[i] == k);
        }
        if before.contains(k) {
            let j = choose|j: int| 0 <= j < before.len() && before[j] == k;
            assert(after[j] == k);
        }
    }
}

/// The records of `s` whose identifier differs from `id`, in order.
pub open spec fn without_id(s: Seq<RwaYieldRecord>, id: u64) -> Seq<RwaYieldRecord>
    decreases s.len(),
{
    if s.len() == 0 {
        s
    } else if s.last().id != id {
        without_id(s.drop_last(), id).push(s.last())
    } else {
        without_id(s.drop_last(), id)
    }
}

/// Whether a player is active in a stored state; unknown players are not.
pub open spec fn is_active(s: ArenaStorageView, p: AccountId) -> bool {
    s.active.contains_key(p) && s.active[p]
}

/// A player's choice for the current round in a stored state.
pub open spec fn choice_of(s: ArenaStorageView, p: AccountId) -> Option<Choice> {
    if s.choices.contains_key(p) {
        Some(s.choices[p])
    } else {
        None
    }
}

impl ArenaStorage {
    /// An arena with nothing stored.
    pub fn new() -> (s: ArenaStorage)
        ensures
            s@ == (ArenaStorageView {
                config: None,
                players: Seq::empty(),
                active: Map::empty(),
                choices: Map::empty(),
                round: 0,
                winner: None,
                prize_claimed: false,
                creator_stake: 0,
                refund_claimed: Map::empty(),
                global_stats: GlobalStats {
                    total_arenas: 0,
                    live_survivors: 0,
                    global_pool_total: 0,
                },
                rwa_counter: 0,
                prize_pool: 0,
                rwa_yields: Seq::empty(),
                commit_hashes: Map::empty(),
                revealed: Map::empty(),
                pending_admin: None,
                round_deadline: None,
            }),
    {
        let s = ArenaStorage {
            config: None,
            players: Vec::new(),
            active: HashMap::new(),
            choices: HashMap::new(),
            round: 0,
            winner: None,
            prize_claimed: false,
            creator_stake: 0,
            refund_claimed: HashMap::new(),
            global_stats: GlobalStats::empty(),
            rwa_counter: 0,
            prize_pool: 0,
            rwa_yields: Vec::new(),
            commit_hashes: HashMap::new(),
            revealed: HashMap::new(),
            pending_admin: None,
            round_deadline: None,
        };
        assert(s@.players =~= Seq::<AccountId>::empty());
        assert(s@.rwa_yields =~= Seq::<RwaYieldRecord>::empty());
        s
    }

    /// Save the arena configuration.
    pub fn save_config(&mut self, config: &ArenaConfig)
        ensures
            final(self)@ == (ArenaStorageView { config: Some(*config), ..old(self)@ }),
    {
        self.config = Some(*config);
    }

    /// The arena configuration, or `ConfigNotFound` before initialization.
    pub fn load_config(&self) -> (r: Result<ArenaConfig, ArenaError>)
        ensures
            r == (match self@.config {
                Some(c) => Ok::<ArenaConfig, ArenaError>(c),
                None => Err(ArenaError::ConfigNotFound),
            }),
    {
        match self.config {
            Some(c) => Ok(c),
            None => Err(ArenaError::ConfigNotFound),
        }
    }

    /// Append a player to the player list and mark it active.
    pub fn add_player(&mut self, player: AccountId)
        ensures
            final(self)@ == (ArenaStorageView {
                players: old(self)@.players.push(player),
                active: old(self)@.active.insert(player, true),
                ..old(self)@
            }),
    {
        self.players.push(player);
        self.active.insert(player, true);
    }

    /// Every player who joined, in join order.
    pub fn load_all_players(&self) -> (players: Vec<AccountId>)
        ensures
            players@ == self@.players,
    {
        let players = self.players.clone();
        assert(players@ =~= self.players@);
        players
    }

    /// Whether a player is registered.
    pub fn contains_player(&self, player: AccountId) -> (b: bool)
        ensures
            b == self@.players.contains(player),
    {
        let mut i: usize = 0;
        while i < self.players.len()
            invariant
                i <= self@.players.len(),
                forall|j: int| 0 <= j < i ==> self@.players[j] != player,
            decreases self@.players.len() - i,
        {
            if self.players[i] == player {
                assert(self@.players[i as int] == player);
                return true;
            }
            i += 1;
        }
        false
    }

    /// Whether a player is active (not eliminated).
    pub fn is_player_active(&self, player: AccountId) -> (b: bool)
        ensures
            b == is_active(self@, player),
    {
        match self.active.get(&player) {
            Some(b) => *b,
            None => false,
        }
    }

    /// Set the active status of a player.
    pub fn set_player_active(&mut self, player: AccountId, active: bool)
        ensures
            final(self)@ == (ArenaStorageView {
                active: old(self)@.active.insert(player, active),
                ..old(self)@
            }),
    {
        self.active.insert(player, active);
    }

    /// Save a player's choice for the current round.
    pub fn save_player_choice(&mut self, player: AccountId, choice: &Choice)
        ensures
            final(self)@ == (ArenaStorageView {
                choices: old(self)@.choices.insert(player, *choice),
                ..old(self)@
            }),
    {
        self.choices.insert(player, *choice);
    }

    /// A player's choice for the current round.
    pub fn load_player_choice(&self, player: AccountId) -> (r: Option<Choice>)
        ensures
            r == choice_of(self@, player),
    {
        match self.choices.get(&player) {
            Some(c) => Some(*c),
            None => None,
        }
    }

    /// Clear the current round's choice of every listed player.
    pub fn clear_choices(&mut self)
        ensures
            final(self)@ == (ArenaStorageView {
                choices: without_players(old(self)@.choices, old(self)@.players),
                ..old(self)@
            }),
    {
        let ghost s = self@;
        assert(without_players(s.choices, s.players.take(0)) =~= s.choices);
        assert(without_players(s.active, s.players.take(0)) =~= s.active);
        assert(without_players(s.refund_claimed, s.players.take(0)) =~= s.refund_claimed);
        let mut i: usize = 0;
        while i < self.players.len()
            invariant
                i <= s.players.len(),
                self@ == (ArenaStorageView {
                    choices: without_players(s.choices, s.players.take(i as int)),
                    ..s
                }),
            decreases s.players.len() - i,
        {
            let p = self.players[i];
            self.choices.remove(&p);
            proof {
                lemma_take_one_more(s.players, i as int);
            }
            assert(self@.choices =~= without_players(s.choices, s.players.take(i + 1)));
            i += 1;
        }
        assert(s.players.take(i as int) =~= s.players);
    }

    /// The current round number.
    pub fn get_round(&self) -> (r: u32)
        ensures
            r == self@.round,
    {
        self.round
    }

    /// Set the current round number.
    pub fn set_round(&mut self, round: u32)
        ensures
            final(self)@ == (ArenaStorageView { round, ..old(self)@ }),
    {
        self.round = round;
    }

    pub fn get_winner(&self) -> (r: Option<AccountId>)
        ensures
            r == self@.winner,
    {
        self.winner
    }

    pub fn set_winner(&mut self, winner: AccountId)
        ensures
            final(self)@ == (ArenaStorageView { winner: Some(winner), ..old(self)@ }),
    {
        self.winner = Some(winner);
    }

    pub fn is_prize_claimed(&self) -> (b: bool)
        ensures
            b == self@.prize_claimed,
    {
        self.prize_claimed
    }

    pub fn set_prize_claimed(&mut self)
        ensures
            final(self)@ == (ArenaStorageView { prize_claimed: true, ..old(self)@ }),
    {
        self.prize_claimed = true;
    }

    pub fn save_creator_stake(&mut self, amount: i128)
        ensures
            final(self)@ == (ArenaStorageView { creator_stake: amount, ..old(self)@ }),
    {
        self.creator_stake = amount;
    }

    pub fn load_creator_stake(&self) -> (a: i128)
        ensures
            a == self@.creator_stake,
    {
        self.creator_stake
    }

    pub fn is_refund_claimed(&self, player: AccountId) -> (b: bool)
        ensures
            b == (self@.refund_claimed.contains_key(player) && self@.refund_claimed[player]),
    {
        match self.refund_claimed.get(&player) {
            Some(b) => *b,
            None => false,
        }
    }

    pub fn set_refund_claimed(&mut self, player: AccountId)
        ensures
            final(self)@ == (ArenaStorageView {
                refund_claimed: old(self)@.refund_claimed.insert(player, true),
                ..old(self)@
            }),
    {
        self.refund_claimed.insert(player, true);
    }

    /// Remove the transient data of a finished or cancelled arena (players,
    /// their status, choices and refunds, the winner, the round, the claim
    /// flag and the creator stake), keeping the configuration.
    pub fn cleanup_arena_data(&mut self)
        ensures
            final(self)@ == (ArenaStorageView {
                players: Seq::empty(),
                active: without_players(old(self)@.active, old(self)@.players),
                choices: without_players(old(self)@.choices, old(self)@.players),
                refund_claimed: without_players(old(self)@.refund_claimed, old(self)@.players),
                winner: None,
                round: 0,
                prize_claimed: false,
                creator_stake: 0,
                ..old(self)@
            }),
    {
        let ghost s = self@;
        assert(without_players(s.choices, s.players.take(0)) =~= s.choices);
        assert(without_players(s.active, s.players.take(0)) =~= s.active);
        assert(without_players(s.refund_claimed, s.players.take(0)) =~= s.refund_claimed);
        let mut i: usize = 0;
        while i < self.players.len()
            invariant
                i <= s.players.len(),
                self@ == (ArenaStorageView {
                    active: without_players(s.active, s.players.take(i as int)),
                    choices: without_players(s.choices, s.players.take(i as int)),
                    refund_claimed: without_players(s.refund_claimed, s.players.take(i as int)),
                    ..s
                }),
            decreases s.players.len() - i,
        {
            let p = self.players[i];
            self.choices.remove(&p);
            self.active.remove(&p);
            self.refund_claimed.remove(&p);
            proof {
                lemma_take_one_more(s.players, i as int);
            }
            assert(self@.choices =~= without_players(s.choices, s.players.take(i + 1)));
            assert(self@.active =~= without_players(s.active, s.players.take(i + 1)));
            assert(self@.refund_claimed =~= without_players(s.refund_claimed, s.players.take(i + 1)));
            i += 1;
        }
        assert(s.players.take(i as int) =~= s.players);
        self.players = Vec::new();
        self.winner = None;
        self.round = 0;
        self.prize_claimed = false;
        self.creator_stake = 0;
        assert(self@.players =~= Seq::<AccountId>::empty());
    }

    pub fn load_global_stats(&self) -> (g: GlobalStats)
        ensures
            g == self@.global_stats,
    {
        self.global_stats
    }

    pub fn save_global_stats(&mut self, stats: &GlobalStats)
        ensures
            final(self)@ == (ArenaStorageView { global_stats: *stats, ..old(self)@ }),
    {
        self.global_stats = *stats;
    }

    /// Count one more arena (saturating).
    pub fn increment_arena_count(&mut self)
        ensures
            final(self)@ == (ArenaStorageView {
                global_stats: GlobalStats {
                    total_arenas: if old(self)@.global_stats.total_arenas == u32::MAX {
                        u32::MAX
                    } else {
                        (old(self)@.global_stats.total_arenas + 1) as u32
                    },
                    ..old(self)@.global_stats
                },
                ..old(self)@
            }),
    {
        let mut stats = self.global_stats;
        stats.total_arenas = stats.total_arenas.saturating_add(1);
        self.global_stats = stats;
    }

    /// Count `delta` more live survivors (saturating).
    pub fn increment_live_survivors(&mut self, delta: u32)
        ensures
            final(self)@ == (ArenaStorageView {
                global_stats: GlobalStats {
                    live_survivors: if old(self)@.global_stats.live_survivors + delta > u32::MAX {
                        u32::MAX
                    } else {
                        (old(self)@.global_stats.live_survivors + delta) as u32
                    },
                    ..old(self)@.global_stats
                },
                ..old(self)@
            }),
    {
        let mut stats = self.global_stats;
        stats.live_survivors = stats.live_survivors.saturating_add(delta);
        self.global_stats = stats;
    }

    /// Count `delta` fewer live survivors (saturating at zero).
    pub fn decrement_live_survivors(&mut self, delta: u32)
        ensures
            final(self)@ == (ArenaStorageView {
                global_stats: GlobalStats {
                    live_survivors: if old(self)@.global_stats.live_survivors < delta {
                        0
                    } else {
                        (old(self)@.global_stats.live_survivors - delta) as u32
                    },
                    ..old(self)@.global_stats
                },
                ..old(self)@
            }),
    {
        let mut stats = self.global_stats;
        stats.live_survivors = stats.live_survivors.saturating_sub(delta);
        self.global_stats = stats;
    }

    /// Add `amount` to the pool total of all arenas (saturating).
    pub fn add_to_global_pool(&mut self, amount: i128)
        ensures
            final(self)@ == (ArenaStorageView {
                global_stats: GlobalStats {
                    global_pool_total: crate::num::clamp_i128(
                        old(self)@.global_stats.global_pool_total + amount,
                    ),
                    ..old(self)@.global_stats
                },
                ..old(self)@
            }),
    {
        let mut stats = self.global_stats;
        stats.global_pool_total = crate::num::saturating_add_i128(stats.global_pool_total, amount);
        self.global_stats = stats;
    }

    pub fn get_prize_pool(&self) -> (p: i128)
        ensures
            p == self@.prize_pool,
    {
        self.prize_pool
    }

    pub fn set_prize_pool(&mut self, amount: i128)
        ensures
            final(self)@ == (ArenaStorageView { prize_pool: amount, ..old(self)@ }),
    {
        self.prize_pool = amount;
    }

    /// Take the next yield record identifier (saturating).
    fn next_rwa_id(&mut self) -> (id: u64)
        ensures
            id == (if old(self)@.rwa_counter == u64::MAX {
                u64::MAX
            } else {
                (old(self)@.rwa_counter + 1) as u64
            }),
            final(self)@ == (ArenaStorageView { rwa_counter: id, ..old(self)@ }),
    {
        let next = self.rwa_counter.saturating_add(1);
        self.rwa_counter = next;
        next
    }

    /// Store a yield record, replacing a stored record with the same id.
    pub fn save_rwa_yield(&mut self, record: RwaYieldRecord)
        ensures
            final(self)@ == (ArenaStorageView {
                rwa_yields: without_id(old(self)@.rwa_yields, record.id).push(
                    record,
                ),
                ..old(self)@
            }),
    {
        let mut kept: Vec<RwaYieldRecord> = Vec::new();
        let ghost old_records = self@.rwa_yields;
        let mut i: usize = 0;
        while i < self.rwa_yields.len()
            invariant
                i <= old_records.len(),
                self@.rwa_yields == old_records,
                kept@ == without_id(old_records.take(i as int), record.id),
            decreases old_records.len() - i,
        {
            assert(old_records.take(i + 1).drop_last() =~= old_records.take(i as int));
            let ghost kept0 = kept@;
            if self.rwa_yields[i].id != record.id {
                let r = self.rwa_yields[i].clone();
                assert(r == old_records[i as int]);
                kept.push(r);
                assert(kept@ == kept0.push(old_records[i as int]));
            }
            let ghost t = old_records.take(i + 1);
            assert(t.last() == old_records[i as int]);
            assert(t.drop_last() == old_records.take(i as int));
            assert(kept@ =~= without_id(t, record.id));
            i += 1;
        }
        assert(old_records.take(i as int) =~= old_records);
        kept.push(record);
        self.rwa_yields = kept;
    }

    /// Assign the next identifier to a yield record and store it.
    pub fn create_rwa_yield(&mut self, record_without_id: RwaYieldRecord) -> (r: u64)
        ensures
            r == (if old(self)@.rwa_counter == u64::MAX {
                u64::MAX
            } else {
                (old(self)@.rwa_counter + 1) as u64
            }),
            final(self)@ == (ArenaStorageView {
                rwa_counter: r,
                rwa_yields: without_id(old(self)@.rwa_yields, r).push(
                    RwaYieldRecord { id: r, ..record_without_id },
                ),
                ..old(self)@
            }),
    {
        let id = self.next_rwa_id();
        let record = RwaYieldRecord { id, ..record_without_id };
        self.save_rwa_yield(record);
        id
    }

    /// The stored yield record with identifier `id`, if any.
    pub fn load_rwa_yield(&self, id: u64) -> (r: Option<&RwaYieldRecord>)
        ensures
            match r {
                Some(rec) => self@.rwa_yields.contains(*rec) && rec.id == id,
                None => forall|j: int|
                    0 <= j < self@.rwa_yields.len() ==> self@.rwa_yields[j].id != id,
            },
    {
        let mut i: usize = 0;
        while i < self.rwa_yields.len()
            invariant
                i <= self@.rwa_yields.len(),
                forall|j: int| 0 <= j < i ==> self@.rwa_yields[j].id != id,
            decreases self@.rwa_yields.len() - i,
        {
            if self.rwa_yields[i].id == id {
                assert(self@.rwa_yields[i as int] == self.rwa_yields[i as int]);
                return Some(&self.rwa_yields[i]);
            }
            i += 1;
        }
        None
    }

    pub fn save_commit_hash(&mut self, player: AccountId, round: u32, hash: &[u8; 32])
        ensures
            final(self)@ == (ArenaStorageView {
                commit_hashes: old(self)@.commit_hashes.insert(round_key(player, round), *hash),
                ..old(self)@
            }),
    {
        let k = make_round_key(player, round);
        self.commit_hashes.insert(k, *hash);
    }

    pub fn load_commit_hash(&self, player: AccountId, round: u32) -> (r: Option<[u8; 32]>)
        ensures
            r == (if self@.commit_hashes.contains_key(round_key(player, round)) {
                Some(self@.commit_hashes[round_key(player, round)])
            } else {
                None
            }),
    {
        let k = make_round_key(player, round);
        match self.commit_hashes.get(&k) {
            Some(h) => Some(*h),
            None => None,
        }
    }

    pub fn is_revealed(&self, player: AccountId, round: u32) -> (b: bool)
        ensures
            b == (self@.revealed.contains_key(round_key(player, round)) && self@.revealed[round_key(
                player,
                round,
            )]),
    {
        let k = make_round_key(player, round);
        match self.revealed.get(&k) {
            Some(b) => *b,
            None => false,
        }
    }

    pub fn set_revealed(&mut self, player: AccountId, round: u32)
        ensures
            final(self)@ == (ArenaStorageView {
                revealed: old(self)@.revealed.insert(round_key(player, round), true),
                ..old(self)@
            }),
    {
        let k = make_round_key(player, round);
        self.revealed.insert(k, true);
    }

    pub fn set_pending_admin(&mut self, admin: AccountId)
        ensures
            final(self)@ == (ArenaStorageView { pending_admin: Some(admin), ..old(self)@ }),
    {
        self.pending_admin = Some(admin);
    }

    pub fn get_pending_admin(&self) -> (r: Option<AccountId>)
        ensures
            r == self@.pending_admin,
    {
        self.pending_admin
    }

    pub fn clear_pending_admin(&mut self)
        ensures
            final(self)@ == (ArenaStorageView { pending_admin: None, ..old(self)@ }),
    {
        self.pending_admin = None;
    }

    pub fn set_round_deadline(&mut self, deadline: u64)
        ensures
            final(self)@ == (ArenaStorageView { round_deadline: Some(deadline), ..old(self)@ }),
    {
        self.round_deadline = Some(deadline);
    }

    pub fn get_round_deadline(&self) -> (r: Option<u64>)
        ensures
            r == self@.round_deadline,
    {
        self.round_deadline
    }
}

} // verus!
