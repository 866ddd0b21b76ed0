//! Round resolution and prize payout of the yield arena.

use vstd::prelude::*;

use super::contract::{current_round, ArenaContract, ArenaContractView};
use super::eliminations::{count_choice, is_eliminated, spec_is_eliminated, tally_choices, Tally};
use super::events::{ArenaCall, ArenaEvent};
use super::storage::{choice_for, last_vault_balance_or_zero, ArenaStorageView};
use super::types::{ArenaConfig, ArenaError, Choice, GameState, PlayerState, RoundResult, YieldSnapshot};
use crate::num::{clamp_i128, saturating_add_i128, saturating_sub_i128};
use crate::AccountId;

verus! {

/// A player's state in a state map: absent players count as inactive.
pub open spec fn state_in(states: Map<AccountId, PlayerState>, p: AccountId) -> PlayerState {
    if states.contains_key(p) {
        states[p]
    } else {
        PlayerState { active: false, rounds_survived: 0 }
    }
}

/// The revealed choices of the players that are active before the round,
/// in the order of the player list.
pub open spec fn active_choices(s: ArenaStorageView, players: Seq<AccountId>, round: u32) -> Seq<
    Choice,
>
    decreases players.len(),
{
    if players.len() == 0 {
        Seq::empty()
    } else {
        let rest = active_choices(s, players.drop_last(), round);
        let p = players.last();
        if state_in(s.player_states, p).active && choice_for(s, p, round) is Some {
            rest.push(choice_for(s, p, round)->0)
        } else {
            rest
        }
    }
}

/// The votes of a round: the revealed choices of the active players.
pub open spec fn round_tally(s: ArenaStorageView, round: u32) -> Tally {
    Tally {
        heads: count_choice(active_choices(s, s.players, round), Choice::Heads) as u32,
        tails: count_choice(active_choices(s, s.players, round), Choice::Tails) as u32,
    }
}

/// The outcome of resolving the players of a round.
pub struct Resolution {
    /// Player states after the round.
    pub states: Map<AccountId, PlayerState>,
    pub eliminated: nat,
    pub survivors: nat,
    /// The last survivor in list order.
    pub last_survivor: Option<AccountId>,
    /// The eliminated players, in the order they were eliminated.
    pub eliminated_players: Seq<AccountId>,
}

/// The rounds survived after surviving one more round (saturating).
pub open spec fn one_more_round(n: u32) -> u32 {
    if n == u32::MAX {
        n
    } else {
        (n + 1) as u32
    }
}

/// Resolve the players of `players` in order: an active player whose
/// revealed choice loses under `tally` is eliminated; every other active
/// player survives and counts one more round survived. Inactive players are
/// left alone.
pub open spec fn resolve_fold(
    init: Map<AccountId, PlayerState>,
    s: ArenaStorageView,
    players: Seq<AccountId>,
    round: u32,
    tally: Tally,
) -> Resolution
    decreases players.len(),
{
    if players.len() == 0 {
        Resolution {
            states: init,
            eliminated: 0,
            survivors: 0,
            last_survivor: None,
            eliminated_players: Seq::empty(),
        }
    } else {
        let r = resolve_fold(init, s, players.drop_last(), round, tally);
        let p = players.last();
        let st = state_in(r.states, p);
        if !st.active {
            r
        } else if choice_for(s, p, round) matches Some(c) && spec_is_eliminated(c, tally) {
            Resolution {
                states: r.states.insert(p, PlayerState { active: false, ..st }),
                eliminated: r.eliminated + 1,
                eliminated_players: r.eliminated_players.push(p),
                ..r
            }
        } else {
            Resolution {
                states: r.states.insert(
                    p,
                    PlayerState { rounds_survived: one_more_round(st.rounds_survived), ..st },
                ),
                survivors: r.survivors + 1,
                last_survivor: Some(p),
                ..r
            }
        }
    }
}

/// The resolution of a whole round in a stored state.
pub open spec fn round_resolution(s: ArenaStorageView, round: u32) -> Resolution {
    resolve_fold(s.player_states, s, s.players, round, round_tally(s, round))
}

/// The outcome of resolving the players, as the contract reports it.
#[derive(Clone, Copy, PartialEq, Eq, Structural, Debug)]
pub struct RoundResolution {
    pub eliminated: u32,
    pub survivors: u32,
    /// The winner, when exactly one player survives.
    pub winner: Option<AccountId>,
    /// Whether both sides received the same, non-zero number of votes.
    pub tied: bool,
}

/// The `PlayerEliminated` events of a round.
pub open spec fn elimination_events(players: Seq<AccountId>, round: u32) -> Seq<ArenaEvent> {
    players.map_values(|p: AccountId| ArenaEvent::PlayerEliminated { player: p, round })
}

pub proof fn lemma_active_choices_len(s: ArenaStorageView, players: Seq<AccountId>, round: u32)
    ensures
        active_choices(s, players, round).len() <= players.len(),
    decreases players.len(),
{
    if players.len() > 0 {
        lemma_active_choices_len(s, players.drop_last(), round);
    }
}

pub proof fn lemma_resolve_counts(
    init: Map<AccountId, PlayerState>,
    s: ArenaStorageView,
    players: Seq<AccountId>,
    round: u32,
    tally: Tally,
)
    ensures
        ({
            let r = resolve_fold(init, s, players, round, tally);
            &&& r.eliminated + r.survivors <= players.len()
            &&& r.eliminated_players.len() == r.eliminated
            &&& r.survivors > 0 ==> r.last_survivor is Some
        }),
    decreases players.len(),
{
    if players.len() > 0 {
        lemma_resolve_counts(init, s, players.drop_last(), round, tally);
    }
}


impl ArenaContract {
    /// Resolve the players of `round`: tally the revealed choices of the
    /// active players, eliminate every active player whose choice lost, and
    /// count one more round survived for every other active player.
    pub fn resolve_players(&mut self, round: u32) -> (res: RoundResolution)
        requires
            old(self)@.storage.players.len() < u32::MAX,
        ensures
            ({
                let s = old(self)@.storage;
                let t = round_tally(s, round);
                let r = round_resolution(s, round);
                &&& final(self)@.storage == ArenaStorageView { player_states: r.states, ..s }
                &&& final(self)@.events == old(self)@.events + elimination_events(
                    r.eliminated_players,
                    round,
                )
                &&& final(self)@.calls == old(self)@.calls
                &&& res.eliminated == r.eliminated
                &&& res.survivors == r.survivors
                &&& res.winner == (if r.survivors == 1 {
                    r.last_survivor
                } else {
                    None
                })
                &&& res.tied == (t.heads > 0 && t.heads == t.tails)
            }),
    {
        let players = self.storage.load_all_players();
        let ghost s = self.storage@;
        let ghost ev0 = self.events.log@;
        let ghost calls0 = self.calls@;
        let mut active: Vec<Choice> = Vec::new();
        let mut i: usize = 0;
        while i < players.len()
            invariant
                players@ == s.players,
                self.storage@ == s,
                i <= players.len(),
                active@ == active_choices(s, players@.take(i as int), round),
            decreases players.len() - i,
        {
            let p = players[i];
            assert(players@.take(i + 1).drop_last() =~= players@.take(i as int));
            assert(players@.take(i + 1).last() == p);
            let st = match self.storage.load_player(p) {
                Some(x) => x,
                None => PlayerState::absent(),
            };
            if st.active {
                if let Some(c) = self.storage.load_choice(p, round) {
                    active.push(c);
                }
            }
            i += 1;
        }
        assert(players@.take(players.len() as int) =~= players@);
        proof {
            lemma_active_choices_len(s, s.players, round);
            super::eliminations::lemma_counts_partition(active@);
        }
        let tally = tally_choices(&active);
        assert(tally == round_tally(s, round));
        let tied = tally.heads > 0 && tally.heads == tally.tails;
        let mut eliminated: u32 = 0;
        let mut survivors: u32 = 0;
        let mut winner: Option<AccountId> = None;
        let mut i: usize = 0;
        while i < players.len()
            invariant
                players@ == s.players,
                i <= players.len(),
                players.len() < u32::MAX,
                tally == round_tally(s, round),
                self.calls@ == calls0,
                ({
                    let r = resolve_fold(s.player_states, s, players@.take(i as int), round, tally);
                    &&& self.storage@ == ArenaStorageView { player_states: r.states, ..s }
                    &&& self.events.log@ == ev0 + elimination_events(r.eliminated_players, round)
                    &&& eliminated == r.eliminated
                    &&& survivors == r.survivors
                    &&& winner == r.last_survivor
                }),
            decreases players.len() - i,
        {
            let p = players[i];
            let ghost before = players@.take(i as int);
            let ghost r0 = resolve_fold(s.player_states, s, before, round, tally);
            assert(players@.take(i + 1).drop_last() =~= before);
            assert(players@.take(i + 1).last() == p);
            proof {
                lemma_resolve_counts(s.player_states, s, before, round, tally);
            }
            let st = match self.storage.load_player(p) {
                Some(x) => x,
                None => PlayerState::absent(),
            };
            if st.active {
                let should_eliminate = match self.storage.load_choice(p, round) {
                    Some(c) => is_eliminated(c, &tally),
                    None => false,
                };
                if should_eliminate {
                    let updated = PlayerState { active: false, ..st };
                    eliminated += 1;
                    self.events.player_eliminated(p, round);
                    self.storage.save_player(p, &updated);
                    assert(elimination_events(r0.eliminated_players.push(p), round) =~= 
                        elimination_events(r0.eliminated_players, round).push(
                            ArenaEvent::PlayerEliminated { player: p, round },
                        ));
                } else {
                    let rounds = if st.rounds_survived == u32::MAX {
                        st.rounds_survived
                    } else {
                        st.rounds_survived + 1
                    };
                    let updated = PlayerState { rounds_survived: rounds, ..st };
                    survivors += 1;
                    winner = Some(p);
                    self.storage.save_player(p, &updated);
                }
            }
            i += 1;
        }
        assert(players@.take(players.len() as int) =~= players@);
        if survivors == 1 {
            RoundResolution { eliminated, survivors, winner, tied }
        } else {
            RoundResolution { eliminated, survivors, winner: None, tied }
        }
    }
}


/// The time from which a round may be resolved: its start plus its
/// duration, saturating at `u64::MAX`.
pub open spec fn grace_deadline(s: ArenaStorageView) -> u64 {
    let d = match s.round_duration {
        Some(d) => d,
        None => 0,
    };
    if s.round_start->0 + d > u64::MAX {
        u64::MAX
    } else {
        (s.round_start->0 + d) as u64
    }
}

/// Why `resolve_round` would refuse to resolve at time `now`, if it would.
pub open spec fn resolve_rejection(s: ArenaStorageView, now: u64) -> Option<ArenaError> {
    match s.config {
        None => Some(ArenaError::NotInitialized),
        Some(c) => if c.paused {
            Some(ArenaError::ContractPaused)
        } else if c.state != GameState::Active {
            Some(ArenaError::RoundNotActive)
        } else if s.round_start is None {
            Some(ArenaError::RoundNotStarted)
        } else if now < grace_deadline(s) {
            Some(ArenaError::GracePeriodNotElapsed)
        } else {
            None
        },
    }
}

/// The vault balance that a round resolution works with: the reading, or
/// the last recorded balance when the vault did not answer.
pub open spec fn vault_balance_of(s: ArenaStorageView, reading: Option<i128>) -> i128 {
    match reading {
        Some(b) => b,
        None => last_vault_balance_or_zero(s),
    }
}

/// The yield accrued since the last recorded balance; a decrease accrues
/// nothing.
pub open spec fn accrued_yield(s: ArenaStorageView, reading: Option<i128>) -> i128 {
    let prev = last_vault_balance_or_zero(s);
    let b = vault_balance_of(s, reading);
    if b >= prev {
        (b - prev) as i128
    } else {
        0
    }
}

/// The state after a successful resolution of the current round.
pub open spec fn resolved_storage(
    s: ArenaStorageView,
    oracle_bps: Option<u32>,
    vault_reading: Option<i128>,
) -> ArenaStorageView {
    let c = s.config->0;
    let round = current_round(c);
    let bps = match oracle_bps {
        Some(b) => b,
        None => 0,
    };
    let snapshot = YieldSnapshot { round, rate_bps: bps, accrued: accrued_yield(s, vault_reading) };
    let r = round_resolution(s, round);
    ArenaStorageView {
        round_yield_bps: s.round_yield_bps.insert(round, bps),
        yield_snapshots: s.yield_snapshots.insert(round, snapshot),
        last_vault_balance: Some(vault_balance_of(s, vault_reading)),
        player_states: r.states,
        round_results: s.round_results.insert(
            round,
            RoundResult {
                round,
                eliminated: r.eliminated as u32,
                survivors: r.survivors as u32,
                yield_snapshot: snapshot,
            },
        ),
        config: Some(
            ArenaConfig {
                cumulative_yield: clamp_i128(c.cumulative_yield + accrued_yield(s, vault_reading)),
                round_count: round,
                state: if r.survivors <= 1 {
                    GameState::Finished
                } else {
                    GameState::Open
                },
                ..c
            },
        ),
        ..s
    }
}

/// The events of a successful resolution of the current round.
pub open spec fn resolved_events(s: ArenaStorageView, vault_reading: Option<i128>) -> Seq<
    ArenaEvent,
> {
    let c = s.config->0;
    let round = current_round(c);
    let prev = last_vault_balance_or_zero(s);
    let b = vault_balance_of(s, vault_reading);
    let t = round_tally(s, round);
    let r = round_resolution(s, round);
    (if b < prev {
        seq![ArenaEvent::VaultBalanceDecreased { previous_balance: prev, current_balance: b }]
    } else {
        Seq::empty()
    }) + elimination_events(r.eliminated_players, round) + seq![
        ArenaEvent::RoundResolved {
            round,
            eliminated: r.eliminated as u32,
            survivors: r.survivors as u32,
        },
    ] + (if t.heads > 0 && t.heads == t.tails {
        seq![ArenaEvent::RoundTied { round, survivors: r.survivors as u32 }]
    } else {
        Seq::empty()
    }) + (if r.survivors == 1 {
        seq![ArenaEvent::GameFinished { winner: r.last_survivor->0, round }]
    } else {
        Seq::empty()
    })
}

/// What a claim pays: the staked principal of all players, and that
/// principal plus the accrued yield (saturating).
#[derive(Clone, Copy, PartialEq, Eq, Structural, Debug)]
pub struct ClaimPayout {
    pub principal: i128,
    pub payout: i128,
}

/// Why `claim` would refuse `winner`, if it would.
pub open spec fn claim_rejection(s: ArenaStorageView, winner: AccountId) -> Option<ArenaError> {
    match s.config {
        None => Some(ArenaError::NotInitialized),
        Some(c) => if c.paused {
            Some(ArenaError::ContractPaused)
        } else if s.prize_claimed {
            Some(ArenaError::PrizeAlreadyClaimed)
        } else if c.state != GameState::Finished {
            Some(ArenaError::GameNotFinished)
        } else if !state_in(s.player_states, winner).active {
            Some(ArenaError::PlayerEliminated)
        } else {
            None
        },
    }
}

/// The amount paid to the winner: the payout, capped to what the vault
/// returned when it answered.
pub open spec fn claim_total(payout: i128, withdrawn: Option<i128>) -> i128 {
    match withdrawn {
        Some(w) => if payout > w {
            w
        } else {
            payout
        },
        None => payout,
    }
}

impl ArenaContract {
    /// Resolve the current round at time `now`.
    ///
    /// Only while `Active`, once the round's duration has elapsed since its
    /// start. `oracle_bps` is the oracle's yield rate (`None` when it did not
    /// answer, counted as 0 bps) and `vault_reading` the vault balance of the
    /// arena (`None` when the vault did not answer; the last recorded balance
    /// is then used). The increase over the last recorded balance is the
    /// round's yield; a decrease accrues nothing and is reported. The
    /// players are resolved under minority-wins rules, the round's snapshot
    /// and result are recorded, and the arena returns to `Open`, or becomes
    /// `Finished` when at most one player survives.
    #[verifier::rlimit(40)]
    pub fn resolve_round(&mut self, now: u64, oracle_bps: Option<u32>, vault_reading: Option<i128>) -> (r:
        Result<(), ArenaError>)
        requires
            old(self)@.storage.players.len() < u32::MAX,
            vault_reading matches Some(b) ==> (b >= last_vault_balance_or_zero(old(self)@.storage)
                ==> b - last_vault_balance_or_zero(old(self)@.storage) <= i128::MAX),
        ensures
            resolve_rejection(old(self)@.storage, now) matches Some(e) ==> r == Err::<
                (),
                ArenaError,
            >(e) && final(self)@ == old(self)@,
            resolve_rejection(old(self)@.storage, now) is None ==> r is Ok && final(self)@ == (
            ArenaContractView {
                storage: resolved_storage(old(self)@.storage, oracle_bps, vault_reading),
                events: old(self)@.events + resolved_events(old(self)@.storage, vault_reading),
                calls: old(self)@.calls,
            }),
    {
        let config = self.storage.load_config()?;
        Self::require_not_paused(&config)?;
        if config.state != GameState::Active {
            return Err(ArenaError::RoundNotActive);
        }
        let round_start = match self.storage.load_round_start() {
            Some(t) => t,
            None => return Err(ArenaError::RoundNotStarted),
        };
        let grace = self.storage.load_round_duration();
        let deadline = round_start.saturating_add(grace);
        if now < deadline {
            return Err(ArenaError::GracePeriodNotElapsed);
        }
        let ghost s = self.storage@;
        let ghost ev0 = self.events.log@;
        let round = if config.round_count == u32::MAX {
            u32::MAX
        } else {
            config.round_count + 1
        };
        let yield_bps = match oracle_bps {
            Some(b) => b,
            None => 0,
        };
        let previous_balance = self.storage.load_last_vault_balance();
        let vault_balance = match vault_reading {
            Some(b) => b,
            None => previous_balance,
        };
        let accrued = if vault_balance >= previous_balance {
            vault_balance - previous_balance
        } else {
            self.events.vault_balance_decreased(previous_balance, vault_balance);
            0
        };
        let ghost ev1 = self.events.log@;
        let snapshot = YieldSnapshot { round, rate_bps: yield_bps, accrued };
        self.storage.save_round_yield_bps(round, yield_bps);
        self.storage.save_yield_snapshot(round, &snapshot);
        self.storage.save_last_vault_balance(vault_balance);
        let cumulative = saturating_add_i128(config.cumulative_yield, accrued);
        let ghost s1 = self.storage@;
        assert(s1.players == s.players && s1.player_states == s.player_states && s1.choices
            == s.choices);
        assert(round_tally(s1, round) == round_tally(s, round)) by {
            assert(active_choices(s1, s.players, round) == active_choices(s, s.players, round))
                by {
                lemma_active_choices_same(s, s1, s.players, round);
            }
        }
        proof {
            lemma_resolve_fold_same(s.player_states, s, s1, s.players, round, round_tally(s, round));
        }
        let resolution = self.resolve_players(round);
        let result = RoundResult {
            round,
            eliminated: resolution.eliminated,
            survivors: resolution.survivors,
            yield_snapshot: snapshot,
        };
        self.storage.save_round_result(round, &result);
        let updated = ArenaConfig {
            cumulative_yield: cumulative,
            round_count: round,
            state: if resolution.survivors <= 1 {
                GameState::Finished
            } else {
                GameState::Open
            },
            ..config
        };
        self.storage.save_config(&updated);
        self.events.round_resolved(round, resolution.eliminated, resolution.survivors);
        if resolution.tied {
            self.events.round_tied(round, resolution.survivors);
        }
        if let Some(winner) = resolution.winner {
            self.events.game_finished(winner, round);
        }
        proof {
            lemma_resolve_counts(s.player_states, s, s.players, round, round_tally(s, round));
        }
        assert(self.storage@ =~= resolved_storage(s, oracle_bps, vault_reading));
        assert(self.events.log@ =~= ev0 + resolved_events(s, vault_reading));
        Ok(())
    }

    /// Claim the prize as the last surviving player: the checks and the
    /// effects of a claim.
    ///
    /// Only before any prize was claimed (a claimed prize always answers
    /// `PrizeAlreadyClaimed`), once the arena is `Finished`, and by a player
    /// who is still active. The prize is marked claimed and the arena becomes
    /// `Settled` before anything is paid, so that a re-entrant claim is
    /// refused with `PrizeAlreadyClaimed`; then the arena's position is withdrawn from the
    /// vault. Returns the principal (entry fee times player count) and the
    /// payout (principal plus accrued yield, saturating); `finish_claim`
    /// pays it once the vault has answered.
    pub fn claim(&mut self, winner: AccountId) -> (r: Result<ClaimPayout, ArenaError>)
        requires
            claim_rejection(old(self)@.storage, winner) is None ==> i128::MIN
                <= old(self)@.storage.config->0.entry_fee * old(self)@.storage.config->0.player_count
                <= i128::MAX,
        ensures
            claim_rejection(old(self)@.storage, winner) matches Some(e) ==> r == Err::<
                ClaimPayout,
                ArenaError,
            >(e) && final(self)@ == old(self)@,
            claim_rejection(old(self)@.storage, winner) is None ==> ({
                let s = old(self)@.storage;
                let c = s.config->0;
                let principal = (c.entry_fee * c.player_count) as i128;
                &&& r == Ok::<ClaimPayout, ArenaError>(
                    ClaimPayout {
                        principal,
                        payout: clamp_i128(principal + c.cumulative_yield),
                    },
                )
                &&& final(self)@ == ArenaContractView {
                    storage: ArenaStorageView {
                        prize_claimed: true,
                        config: Some(ArenaConfig { state: GameState::Settled, ..c }),
                        ..s
                    },
                    events: old(self)@.events,
                    calls: old(self)@.calls.push(ArenaCall::VaultWithdrawAll),
                }
            }),
    {
        let config = self.storage.load_config()?;
        Self::require_not_paused(&config)?;
        if self.storage.prize_claimed() {
            return Err(ArenaError::PrizeAlreadyClaimed);
        }
        if config.state != GameState::Finished {
            return Err(ArenaError::GameNotFinished);
        }
        let player_state = match self.storage.load_player(winner) {
            Some(s) => s,
            None => PlayerState::absent(),
        };
        if !player_state.active {
            return Err(ArenaError::PlayerEliminated);
        }
        self.storage.mark_prize_claimed();
        let settled = ArenaConfig { state: GameState::Settled, ..config };
        self.storage.save_config(&settled);
        self.calls.push(ArenaCall::VaultWithdrawAll);
        let principal = config.entry_fee * (config.player_count as i128);
        let payout = saturating_add_i128(principal, config.cumulative_yield);
        Ok(ClaimPayout { principal, payout })
    }

    /// Pay a claimed prize once the vault has answered the withdrawal:
    /// `withdrawn` is what the vault returned, or `None` when it failed.
    /// The winner receives the payout capped to what was withdrawn, and
    /// `PrizeClaimed` reports it with its yield portion (the part above the
    /// principal). Returns the amount paid.
    pub fn finish_claim(&mut self, winner: AccountId, payout: &ClaimPayout, withdrawn: Option<
        i128,
    >) -> (total: i128)
        ensures
            total == claim_total(payout.payout, withdrawn),
            final(self)@ == (ArenaContractView {
                storage: old(self)@.storage,
                events: old(self)@.events.push(
                    ArenaEvent::PrizeClaimed {
                        winner,
                        amount: total,
                        yield_amount: clamp_i128(total - payout.principal),
                    },
                ),
                calls: old(self)@.calls.push(ArenaCall::TransferFromArena { to: winner, amount: total }),
            }),
    {
        let total = match withdrawn {
            Some(w) => if payout.payout > w {
                w
            } else {
                payout.payout
            },
            None => payout.payout,
        };
        self.calls.push(ArenaCall::TransferFromArena { to: winner, amount: total });
        self.events.prize_claimed(winner, total, saturating_sub_i128(total, payout.principal));
        total
    }
}

/// The choices of the active players depend only on the player states and
/// the revealed choices.
pub proof fn lemma_active_choices_same(
    s: ArenaStorageView,
    t: ArenaStorageView,
    players: Seq<AccountId>,
    round: u32,
)
    requires
        s.player_states == t.player_states,
        s.choices == t.choices,
    ensures
        active_choices(s, players, round) == active_choices(t, players, round),
    decreases players.len(),
{
    if players.len() > 0 {
        lemma_active_choices_same(s, t, players.drop_last(), round);
    }
}

/// The resolution of the players depends only on the revealed choices.
pub proof fn lemma_resolve_fold_same(
    init: Map<AccountId, PlayerState>,
    s: ArenaStorageView,
    t: ArenaStorageView,
    players: Seq<AccountId>,
    round: u32,
    tally: Tally,
)
    requires
        s.choices == t.choices,
    ensures
        resolve_fold(init, s, players, round, tally) == resolve_fold(init, t, players, round, tally),
    decreases players.len(),
{
    if players.len() > 0 {
        lemma_resolve_fold_same(init, s, t, players.drop_last(), round, tally);
    }
}

} // verus!
