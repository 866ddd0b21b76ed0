//! Round resolution of the fee arena: players who did not choose are
//! eliminated, then the minority side survives.

use vstd::prelude::*;

use super::contract::{require_not_paused, ArenaContract, ArenaContractView};
use super::errors::ArenaError;
use super::events::ArenaEvent;
use super::storage::{choice_of, without_players, ArenaStorageView};
use super::types::{ArenaConfig, Choice, GameState, GlobalStats, RoundResult};
use crate::AccountId;

verus! {

/// Whether a player is marked active in an activity map.
pub open spec fn is_on(active: Map<AccountId, bool>, p: AccountId) -> bool {
    active.contains_key(p) && active[p]
}

/// The first pass of a round over `players`, in list order.
pub struct AfkPass {
    /// Activity after the pass.
    pub active: Map<AccountId, bool>,
    /// The active players that chose a side, in list order.
    pub voters: Seq<AccountId>,
    /// The active players that did not choose, in list order; they are
    /// eliminated.
    pub afk: Seq<AccountId>,
}

/// The first pass: every active player without a choice is eliminated,
/// every active player with one becomes a voter.
pub open spec fn afk_pass(s: ArenaStorageView, players: Seq<AccountId>) -> AfkPass
    decreases players.len(),
{
    if players.len() == 0 {
        AfkPass { active: s.active, voters: Seq::empty(), afk: Seq::empty() }
    } else {
        let r = afk_pass(s, players.drop_last());
        let p = players.last();
        if !is_on(r.active, p) {
            r
        } else if choice_of(s, p) is None {
            AfkPass { active: r.active.insert(p, false), afk: r.afk.push(p), ..r }
        } else {
            AfkPass { voters: r.voters.push(p), ..r }
        }
    }
}

/// How many of `voters` chose `c`.
pub open spec fn votes_for(s: ArenaStorageView, voters: Seq<AccountId>, c: Choice) -> nat
    decreases voters.len(),
{
    if voters.len() == 0 {
        0
    } else {
        votes_for(s, voters.drop_last(), c) + if choice_of(s, voters.last()) == Some(c) {
            1nat
        } else {
            0nat
        }
    }
}

/// The side that survives a round with `heads` and `tails` votes cast by
/// `voters` voters: the minority side; on a tie between exactly two
/// voters, `Heads`; on any other tie nobody is eliminated (`None`).
pub open spec fn surviving_side(heads: nat, tails: nat, voters: nat) -> Option<Choice> {
    if heads == tails {
        if voters == 2 {
            Some(Choice::Heads)
        } else {
            None
        }
    } else if heads < tails {
        Some(Choice::Heads)
    } else {
        Some(Choice::Tails)
    }
}

/// The second pass of a round over its voters.
pub struct Cull {
    pub active: Map<AccountId, bool>,
    /// The voters eliminated, in list order.
    pub eliminated: Seq<AccountId>,
    pub survivors: nat,
}

/// The second pass: every voter whose choice is not `side` is eliminated,
/// every voter who chose `side` survives.
pub open spec fn cull(
    active: Map<AccountId, bool>,
    s: ArenaStorageView,
    voters: Seq<AccountId>,
    side: Choice,
) -> Cull
    decreases voters.len(),
{
    if voters.len() == 0 {
        Cull { active, eliminated: Seq::empty(), survivors: 0 }
    } else {
        let r = cull(active, s, voters.drop_last(), side);
        let p = voters.last();
        match choice_of(s, p) {
            None => r,
            Some(c) => if c == side {
                Cull { survivors: r.survivors + 1, ..r }
            } else {
                Cull { active: r.active.insert(p, false), eliminated: r.eliminated.push(p), ..r }
            },
        }
    }
}

/// What resolving the current round does to the players.
pub struct RoundOutcome {
    pub active: Map<AccountId, bool>,
    /// Every player eliminated, in the order of elimination.
    pub eliminated: Seq<AccountId>,
    pub survivors: nat,
}

/// The heads and tails votes of the current round.
pub open spec fn round_votes(s: ArenaStorageView) -> (nat, nat) {
    let a = afk_pass(s, s.players);
    (votes_for(s, a.voters, Choice::Heads), votes_for(s, a.voters, Choice::Tails))
}

/// The outcome of resolving the current round of a stored state.
pub open spec fn round_outcome(s: ArenaStorageView) -> RoundOutcome {
    let a = afk_pass(s, s.players);
    let (heads, tails) = round_votes(s);
    match surviving_side(heads, tails, a.voters.len()) {
        None => RoundOutcome { active: a.active, eliminated: a.afk, survivors: a.voters.len() },
        Some(side) => {
            let c = cull(a.active, s, a.voters, side);
            RoundOutcome { active: c.active, eliminated: a.afk + c.eliminated, survivors: c.survivors }
        },
    }
}

/// The first player of the list that is active in `active`.
pub open spec fn first_active(active: Map<AccountId, bool>, players: Seq<AccountId>) -> Option<
    AccountId,
>
    decreases players.len(),
{
    if players.len() == 0 {
        None
    } else if is_on(active, players[0]) {
        Some(players[0])
    } else {
        first_active(active, players.drop_first())
    }
}

/// The `PlayerEliminated` events of a sequence of players.
pub open spec fn elimination_events(players: Seq<AccountId>) -> Seq<ArenaEvent> {
    players.map_values(|p: AccountId| ArenaEvent::PlayerEliminated { player: p })
}

/// Why `resolve_round` would refuse, if it would.
pub open spec fn resolve_rejection(s: ArenaStorageView) -> Option<ArenaError> {
    match s.config {
        None => Some(ArenaError::ConfigNotFound),
        Some(c) => if c.paused {
            Some(ArenaError::ContractPaused)
        } else if c.state != GameState::InProgress {
            Some(ArenaError::InvalidStateTransition)
        } else {
            None
        },
    }
}

/// Why `auto_resolve` would refuse at time `now`, if it would: only a
/// running game past its join deadline is resolved, and resolution itself
/// may still refuse.
pub open spec fn auto_resolve_rejection(s: ArenaStorageView, now: u64) -> Option<ArenaError> {
    match s.config {
        None => Some(ArenaError::ConfigNotFound),
        Some(c) => if c.state != GameState::InProgress {
            Some(ArenaError::InvalidStateTransition)
        } else if now <= c.join_deadline {
            Some(ArenaError::DeadlineTooSoon)
        } else {
            resolve_rejection(s)
        },
    }
}

/// The stored state after resolving the current round of `s`: the
/// outcome's activity, no choices left, the next round, fewer live
/// survivors, and, when at most one player survives, the game finished with
/// the first active player of the list (if any) as winner.
pub open spec fn resolved_storage(s: ArenaStorageView) -> ArenaStorageView {
    let o = round_outcome(s);
    let c = s.config->0;
    let finished = o.survivors <= 1;
    let live = s.global_stats.live_survivors;
    ArenaStorageView {
        active: o.active,
        choices: without_players(s.choices, s.players),
        round: (s.round + 1) as u32,
        global_stats: GlobalStats {
            live_survivors: if live < o.eliminated.len() {
                0
            } else {
                (live - o.eliminated.len()) as u32
            },
            ..s.global_stats
        },
        config: if finished {
            Some(ArenaConfig { state: GameState::Finished, ..c })
        } else {
            s.config
        },
        winner: if finished && first_active(o.active, s.players) is Some {
            first_active(o.active, s.players)
        } else {
            s.winner
        },
        ..s
    }
}

/// The first pass only changes the activity of listed players and never
/// yields more voters and absentees than players.
pub proof fn lemma_afk_pass_bounds(s: ArenaStorageView, players: Seq<AccountId>)
    ensures
        afk_pass(s, players).afk.len() + afk_pass(s, players).voters.len() <= players.len(),
        afk_pass(s, players).active.dom() == s.active.dom().union(
            afk_pass(s, players).active.dom(),
        ),
    decreases players.len(),
{
    if players.len() > 0 {
        lemma_afk_pass_bounds(s, players.drop_last());
        let r2 = afk_pass(s, players);
        assert(r2.active.dom() =~= s.active.dom().union(r2.active.dom()));
    }
}

/// The second pass never yields more eliminations and survivors than
/// voters.
pub proof fn lemma_cull_bounds(
    active: Map<AccountId, bool>,
    s: ArenaStorageView,
    voters: Seq<AccountId>,
    side: Choice,
)
    ensures
        cull(active, s, voters, side).eliminated.len() + cull(active, s, voters, side).survivors
            <= voters.len(),
    decreases voters.len(),
{
    if voters.len() > 0 {
        lemma_cull_bounds(active, s, voters.drop_last(), side);
    }
}

/// The vote counts of a list of voters are bounded by its length.
pub proof fn lemma_votes_bounds(s: ArenaStorageView, voters: Seq<AccountId>)
    ensures
        votes_for(s, voters, Choice::Heads) + votes_for(s, voters, Choice::Tails) <= voters.len(),
    decreases voters.len(),
{
    if voters.len() > 0 {
        lemma_votes_bounds(s, voters.drop_last());
    }
}

/// Eliminations and survivors of a round never exceed the players.
pub proof fn lemma_outcome_bounds(s: ArenaStorageView)
    ensures
        round_outcome(s).eliminated.len() + round_outcome(s).survivors <= s.players.len(),
{
    let a = afk_pass(s, s.players);
    lemma_afk_pass_bounds(s, s.players);
    let (heads, tails) = round_votes(s);
    if let Some(side) = surviving_side(heads, tails, a.voters.len()) {
        lemma_cull_bounds(a.active, s, a.voters, side);
    }
}

/// When no earlier player of the list is active and the player at `i` is,
/// that player is the first active one.
pub proof fn lemma_first_active_at(active: Map<AccountId, bool>, players: Seq<AccountId>, i: int)
    requires
        0 <= i < players.len(),
        is_on(active, players[i]),
        forall|j: int| 0 <= j < i ==> !is_on(active, #[trigger] players[j]),
    ensures
        first_active(active, players) == Some(players[i]),
    decreases i,
{
    if i > 0 {
        let rest = players.drop_first();
        assert forall|j: int| 0 <= j < i - 1 implies !is_on(active, #[trigger] rest[j]) by {
            assert(rest[j] == players[j + 1]);
        }
        lemma_first_active_at(active, rest, i - 1);
    }
}

/// When no player of the list is active there is no first active player.
pub proof fn lemma_first_active_none(active: Map<AccountId, bool>, players: Seq<AccountId>)
    requires
        forall|j: int| 0 <= j < players.len() ==> !is_on(active, #[trigger] players[j]),
    ensures
        first_active(active, players) is None,
    decreases players.len(),
{
    if players.len() > 0 {
        let rest = players.drop_first();
        assert forall|j: int| 0 <= j < rest.len() implies !is_on(active, #[trigger] rest[j]) by {
            assert(rest[j] == players[j + 1]);
        }
        lemma_first_active_none(active, rest);
    }
}

impl ArenaContract {
    /// The first listed player that is active, if any.
    fn first_active_player(&self, players: &Vec<AccountId>) -> (r: Option<AccountId>)
        ensures
            r == first_active(self@.storage.active, players@),
    {
        let mut i: usize = 0;
        while i < players.len()
            invariant
                i <= players.len(),
                forall|j: int| 0 <= j < i ==> !is_on(self@.storage.active, #[trigger] players@[j]),
            decreases players.len() - i,
        {
            if self.storage.is_player_active(players[i]) {
                proof {
                    lemma_first_active_at(self@.storage.active, players@, i as int);
                }
                return Some(players[i]);
            }
            i += 1;
        }
        proof {
            lemma_first_active_none(self@.storage.active, players@);
        }
        None
    }

    /// Resolve the current round. First every active player who made no
    /// choice is eliminated. Then the remaining active players' choices are
    /// counted: the minority side survives and the majority is eliminated;
    /// on a tie between exactly two players the one who chose `Tails` is
    /// eliminated; on any other tie nobody else is eliminated. The choices
    /// are cleared, the round number grows by one, and the live survivor
    /// count drops by the eliminations. When at most one player survives the
    /// game is finished and the first still-active player of the list, if
    /// any, is recorded as winner.
    pub fn resolve_round(&mut self) -> (r: Result<RoundResult, ArenaError>)
        requires
            old(self)@.storage.players.len() <= u32::MAX,
            resolve_rejection(old(self)@.storage) is None ==> old(self)@.storage.round < u32::MAX,
        ensures
            resolve_rejection(old(self)@.storage) matches Some(e) ==> r == Err::<
                RoundResult,
                ArenaError,
            >(e) && final(self)@ == old(self)@,
            resolve_rejection(old(self)@.storage) is None ==> ({
                let s = old(self)@.storage;
                let o = round_outcome(s);
                &&& r == Ok::<RoundResult, ArenaError>(
                    RoundResult {
                        round: (s.round + 1) as u32,
                        eliminated: o.eliminated.len() as u32,
                        survivors: o.survivors as u32,
                    },
                )
                &&& final(self)@ == ArenaContractView {
                    storage: resolved_storage(s),
                    events: old(self)@.events + elimination_events(o.eliminated),
                    transfers: old(self)@.transfers,
                }
            }),
    {
        let mut config = self.storage.load_config()?;
        require_not_paused(&config)?;
        if config.state != GameState::InProgress {
            return Err(ArenaError::InvalidStateTransition);
        }
        let players = self.storage.load_all_players();
        let ghost s = self.storage@;
        let ghost ev0 = self.events.log@;
        let ghost tr0 = self.transfers@;
        proof {
            lemma_outcome_bounds(s);
            lemma_afk_pass_bounds(s, s.players);
        }
        // First pass: players without a choice are eliminated.
        let mut voters: Vec<AccountId> = Vec::new();
        let mut eliminated: u32 = 0;
        let mut i: usize = 0;
        while i < players.len()
            invariant
                players@ == s.players,
                i <= players.len(),
                players.len() <= u32::MAX,
                self.transfers@ == tr0,
                ({
                    let a = afk_pass(s, players@.take(i as int));
                    &&& self.storage@ == ArenaStorageView { active: a.active, ..s }
                    &&& voters@ == a.voters
                    &&& self.events.log@ == ev0 + elimination_events(a.afk)
                    &&& eliminated == a.afk.len()
                }),
            decreases players.len() - i,
        {
            let p = players[i];
            let ghost before = players@.take(i as int);
            let ghost a0 = afk_pass(s, before);
            assert(players@.take(i + 1).drop_last() =~= before);
            assert(players@.take(i + 1).last() == p);
            proof {
                lemma_afk_pass_bounds(s, before);
            }
            if self.storage.is_player_active(p) {
                if self.storage.load_player_choice(p).is_none() {
                    self.storage.set_player_active(p, false);
                    eliminated += 1;
                    self.events.player_eliminated(p);
                    assert(elimination_events(a0.afk.push(p)) =~= elimination_events(a0.afk).push(
                        ArenaEvent::PlayerEliminated { player: p },
                    ));
                } else {
                    voters.push(p);
                }
            }
            i += 1;
        }
        assert(players@.take(players.len() as int) =~= players@);
        let ghost a = afk_pass(s, s.players);
        // Second pass: count the votes.
        let mut heads: u32 = 0;
        let mut tails: u32 = 0;
        let mut j: usize = 0;
        while j < voters.len()
            invariant
                voters@ == a.voters,
                a.afk.len() + a.voters.len() <= u32::MAX,
                self.storage@ == (ArenaStorageView { active: a.active, ..s }),
                j <= voters.len(),
                heads == votes_for(s, voters@.take(j as int), Choice::Heads),
                tails == votes_for(s, voters@.take(j as int), Choice::Tails),
            decreases voters.len() - j,
        {
            let p = voters[j];
            assert(voters@.take(j + 1).drop_last() =~= voters@.take(j as int));
            assert(voters@.take(j + 1).last() == p);
            proof {
                lemma_votes_bounds(s, voters@.take(j as int));
            }
            match self.storage.load_player_choice(p) {
                Some(Choice::Heads) => heads += 1,
                Some(Choice::Tails) => tails += 1,
                None => {},
            }
            j += 1;
        }
        assert(voters@.take(voters.len() as int) =~= voters@);
        // Third pass: the minority survives.
        let active_count = voters.len();
        let mut survivors: u32 = 0;
        if heads == tails && active_count != 2 {
            survivors = active_count as u32;
        } else {
            let side = if heads == tails {
                Choice::Heads
            } else if heads < tails {
                Choice::Heads
            } else {
                Choice::Tails
            };
            assert(surviving_side(heads as nat, tails as nat, a.voters.len()) == Some(side));
            let mut k: usize = 0;
            while k < voters.len()
                invariant
                    voters@ == a.voters,
                    a.afk.len() + a.voters.len() <= u32::MAX,
                    k <= voters.len(),
                    self.transfers@ == tr0,
                    ({
                        let c = cull(a.active, s, voters@.take(k as int), side);
                        &&& self.storage@ == ArenaStorageView { active: c.active, ..s }
                        &&& self.events.log@ == ev0 + elimination_events(a.afk + c.eliminated)
                        &&& eliminated == a.afk.len() + c.eliminated.len()
                        &&& survivors == c.survivors
                    }),
                decreases voters.len() - k,
            {
                let p = voters[k];
                let ghost before = voters@.take(k as int);
                let ghost c0 = cull(a.active, s, before, side);
                assert(voters@.take(k + 1).drop_last() =~= before);
                assert(voters@.take(k + 1).last() == p);
                proof {
                    lemma_cull_bounds(a.active, s, before, side);
                }
                match self.storage.load_player_choice(p) {
                    Some(c) => {
                        if c == side {
                            survivors += 1;
                        } else {
                            self.storage.set_player_active(p, false);
                            eliminated += 1;
                            self.events.player_eliminated(p);
                            assert(a.afk + c0.eliminated.push(p) =~= (a.afk + c0.eliminated).push(p));
                            assert(elimination_events((a.afk + c0.eliminated).push(p))
                                =~= elimination_events(a.afk + c0.eliminated).push(
                                ArenaEvent::PlayerEliminated { player: p },
                            ));
                        }
                    },
                    None => {},
                }
                k += 1;
            }
            assert(voters@.take(voters.len() as int) =~= voters@);
        }
        let ghost o = round_outcome(s);
        assert(eliminated == o.eliminated.len());
        assert(survivors == o.survivors);
        if eliminated > 0 {
            self.storage.decrement_live_survivors(eliminated);
        }
        self.storage.clear_choices();
        let round = self.storage.get_round() + 1;
        self.storage.set_round(round);
        if survivors <= 1 {
            config.state = GameState::Finished;
            self.storage.save_config(&config);
            if let Some(w) = self.first_active_player(&players) {
                self.storage.set_winner(w);
            }
        }
        Ok(RoundResult { round, eliminated, survivors })
    }

    /// Resolve the current round on behalf of anyone, once the join
    /// deadline has passed (`now` is the ledger time).
    pub fn auto_resolve(&mut self, now: u64) -> (r: Result<RoundResult, ArenaError>)
        requires
            old(self)@.storage.players.len() <= u32::MAX,
            auto_resolve_rejection(old(self)@.storage, now) is None ==> old(self)@.storage.round
                < u32::MAX,
        ensures
            auto_resolve_rejection(old(self)@.storage, now) matches Some(e) ==> r == Err::<
                RoundResult,
                ArenaError,
            >(e) && final(self)@ == old(self)@,
            auto_resolve_rejection(old(self)@.storage, now) is None ==> ({
                let s = old(self)@.storage;
                let o = round_outcome(s);
                &&& r == Ok::<RoundResult, ArenaError>(
                    RoundResult {
                        round: (s.round + 1) as u32,
                        eliminated: o.eliminated.len() as u32,
                        survivors: o.survivors as u32,
                    },
                )
                &&& final(self)@ == ArenaContractView {
                    storage: resolved_storage(s),
                    events: old(self)@.events + elimination_events(o.eliminated),
                    transfers: old(self)@.transfers,
                }
            }),
    {
        let config = self.storage.load_config()?;
        if config.state != GameState::InProgress {
            return Err(ArenaError::InvalidStateTransition);
        }
        if now <= config.join_deadline {
            return Err(ArenaError::DeadlineTooSoon);
        }
        self.resolve_round()
    }
}

} // verus!
