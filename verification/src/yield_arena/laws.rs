//! Properties of the yield arena that span its entry points.

use vstd::prelude::*;

use super::contract::{join_rejection, reveal_rejection, start_round_rejection};
use super::eliminations::{spec_is_eliminated, Tally};
use super::contract::current_round;
use super::resolution::{
    accrued_yield, claim_rejection, claim_total, resolve_fold, resolve_rejection, resolved_storage,
    round_resolution, round_tally, state_in, Resolution,
};
use crate::num::clamp_i128;
use super::state_machine::spec_can_transition;
use super::storage::{choice_for, commitment_for, last_vault_balance_or_zero, ArenaStorageView};
use super::types::{ArenaConfig, ArenaError, Choice, GameState, PlayerState};
use crate::AccountId;

verus! {

/// Number of players in `players` that are active in `states`.
pub open spec fn active_count(states: Map<AccountId, PlayerState>, players: Seq<AccountId>) -> nat
    decreases players.len(),
{
    if players.len() == 0 {
        0
    } else {
        active_count(states, players.drop_last()) + if state_in(states, players.last()).active {
            1nat
        } else {
            0nat
        }
    }
}

/// Whether a player loses the round: it revealed a choice that the tally
/// eliminates.
pub open spec fn loses_round(s: ArenaStorageView, p: AccountId, round: u32, tally: Tally) -> bool {
    choice_for(s, p, round) matches Some(c) && spec_is_eliminated(c, tally)
}

/// What resolving a list of players does to each player: players outside
/// the list keep their state; inactive players stay inactive with their
/// state unchanged; an active player in the list who loses the round is
/// eliminated, and every other active player in the list stays active.
pub proof fn lemma_resolution_per_player(
    init: Map<AccountId, PlayerState>,
    s: ArenaStorageView,
    players: Seq<AccountId>,
    round: u32,
    tally: Tally,
    p: AccountId,
)
    ensures
        ({
            let r = resolve_fold(init, s, players, round, tally);
            &&& !players.contains(p) ==> state_in(r.states, p) == state_in(init, p)
            &&& !state_in(init, p).active ==> state_in(r.states, p) == state_in(init, p)
            &&& state_in(init, p).active && players.contains(p) && loses_round(s, p, round, tally)
                ==> !state_in(r.states, p).active
            &&& state_in(init, p).active && players.contains(p) && !loses_round(
                s,
                p,
                round,
                tally,
            ) ==> state_in(r.states, p).active
        }),
    decreases players.len(),
{
    if players.len() > 0 {
        let rest = players.drop_last();
        lemma_resolution_per_player(init, s, rest, round, tally, p);
        let q = players.last();
        assert(players == rest.push(q));
        if p != q {
            assert(players.contains(p) ==> rest.contains(p)) by {
                if players.contains(p) {
                    let i = choose|i: int| 0 <= i < players.len() && players[i] == p;
                    assert(i < rest.len());
                    assert(rest[i] == p);
                }
            }
        } else {
            assert(players[players.len() - 1] == p);
        }
    }
}

/// Every active player of a list without repetitions is either eliminated
/// or survives: the two counts add up to the number of active players.
pub proof fn lemma_resolution_counts_every_active_player(
    init: Map<AccountId, PlayerState>,
    s: ArenaStorageView,
    players: Seq<AccountId>,
    round: u32,
    tally: Tally,
)
    requires
        players.no_duplicates(),
    ensures
        ({
            let r = resolve_fold(init, s, players, round, tally);
            r.eliminated + r.survivors == active_count(init, players)
        }),
    decreases players.len(),
{
    if players.len() > 0 {
        let rest = players.drop_last();
        let q = players.last();
        assert(rest.no_duplicates());
        lemma_resolution_counts_every_active_player(init, s, rest, round, tally);
        assert(!rest.contains(q)) by {
            if rest.contains(q) {
                let i = choose|i: int| 0 <= i < rest.len() && rest[i] == q;
                assert(players[i] == players[players.len() - 1]);
            }
        }
        lemma_resolution_per_player(init, s, rest, round, tally, q);
    }
}

/// Minority wins, over a whole round: after a round is resolved, a player
/// that was eliminated stays eliminated, an active player who revealed the
/// losing choice is eliminated, and every other active player stays in the
/// game. With no player listed twice, every active player is counted as
/// either eliminated or surviving.
pub proof fn lemma_round_resolution_is_minority_wins(s: ArenaStorageView, round: u32, p: AccountId)
    ensures
        ({
            let t = round_tally(s, round);
            let r = round_resolution(s, round);
            &&& !state_in(s.player_states, p).active ==> !state_in(r.states, p).active
            &&& state_in(s.player_states, p).active && s.players.contains(p) && loses_round(
                s,
                p,
                round,
                t,
            ) ==> !state_in(r.states, p).active
            &&& state_in(s.player_states, p).active && s.players.contains(p) && !loses_round(
                s,
                p,
                round,
                t,
            ) ==> state_in(r.states, p).active
            &&& s.players.no_duplicates() ==> r.eliminated + r.survivors == active_count(
                s.player_states,
                s.players,
            )
        }),
{
    lemma_resolution_per_player(s.player_states, s, s.players, round, round_tally(s, round), p);
    if s.players.no_duplicates() {
        lemma_resolution_counts_every_active_player(
            s.player_states,
            s,
            s.players,
            round,
            round_tally(s, round),
        );
    }
}

/// The lifecycle state changes that the entry points make are legal
/// transitions: starting a round from `Open` moves it to `Active` (a round
/// started again from `Finished` is the one change outside the table),
/// resolving one moves `Active` to `Open` or `Finished`, claiming moves
/// `Finished` to `Settled`, and cancelling moves `Open` to `Cancelled`.
pub proof fn lemma_round_transitions_are_legal(
    s: ArenaStorageView,
    now: u64,
    oracle_bps: Option<u32>,
    vault_reading: Option<i128>,
    winner: AccountId,
)
    ensures
        start_round_rejection(s) is None && s.config->0.state == GameState::Open
            ==> spec_can_transition(
            s.config->0.state,
            GameState::Active,
        ),
        resolve_rejection(s, now) is None ==> spec_can_transition(
            s.config->0.state,
            resolved_storage(s, oracle_bps, vault_reading).config->0.state,
        ),
        claim_rejection(s, winner) is None ==> spec_can_transition(
            s.config->0.state,
            GameState::Settled,
        ),
        s.config is Some && !s.config->0.paused && s.config->0.state == GameState::Open
            ==> spec_can_transition(s.config->0.state, GameState::Cancelled),
{
}

/// The stored state right after a successful claim.
pub open spec fn claimed_storage(s: ArenaStorageView) -> ArenaStorageView {
    ArenaStorageView {
        prize_claimed: true,
        config: Some(ArenaConfig { state: GameState::Settled, ..s.config->0 }),
        ..s
    }
}

/// A prize can be claimed only once: once a claim has succeeded (the arena
/// is `Settled` and the prize marked claimed), every further claim is
/// refused with `PrizeAlreadyClaimed`, whoever makes it, a re-entrant one
/// included.
pub proof fn lemma_prize_is_claimed_at_most_once(
    s: ArenaStorageView,
    winner: AccountId,
    other: AccountId,
)
    requires
        claim_rejection(s, winner) is None,
    ensures
        claim_rejection(claimed_storage(s), other) == Some(ArenaError::PrizeAlreadyClaimed),
{
}

/// While the arena is paused, every gameplay entry point is refused with
/// `ContractPaused`: joining, revealing, starting and resolving rounds, and
/// claiming.
pub proof fn lemma_pause_blocks_gameplay(
    s: ArenaStorageView,
    player: AccountId,
    digest: Seq<u8>,
    now: u64,
)
    requires
        s.config matches Some(c) && c.paused,
    ensures
        join_rejection(s, player) == Some(ArenaError::ContractPaused),
        reveal_rejection(s, player, digest, now) == Some(ArenaError::ContractPaused),
        start_round_rejection(s) == Some(ArenaError::ContractPaused),
        resolve_rejection(s, now) == Some(ArenaError::ContractPaused),
        claim_rejection(s, player) == Some(ArenaError::ContractPaused),
{
}

/// Yield only accumulates: every resolved round records a non-negative
/// yield in its snapshot, and the arena's total yield grows by exactly that
/// amount (saturating at `i128::MAX`); the vault balance it read becomes the
/// baseline of the next round.
pub proof fn law_total_yield_accumulates_round_yield(
    s: ArenaStorageView,
    now: u64,
    oracle_bps: Option<u32>,
    vault_reading: Option<i128>,
)
    requires
        resolve_rejection(s, now) is None,
        vault_reading matches Some(b) ==> (b >= last_vault_balance_or_zero(s) ==> b
            - last_vault_balance_or_zero(s) <= i128::MAX),
    ensures
        ({
            let t = resolved_storage(s, oracle_bps, vault_reading);
            let round = current_round(s.config->0);
            &&& t.yield_snapshots.contains_key(round)
            &&& t.yield_snapshots[round].accrued >= 0
            &&& t.yield_snapshots[round].accrued == accrued_yield(s, vault_reading)
            &&& t.config->0.cumulative_yield == clamp_i128(
                s.config->0.cumulative_yield + t.yield_snapshots[round].accrued,
            )
            &&& t.config->0.round_count == round
        }),
{
}

/// A reveal is checked against the commitment and accepted once: in an
/// unpaused arena, once the commit deadline has passed, a player with a
/// commitment and no revealed choice for the current round has a reveal
/// accepted exactly when its preimage digest equals the commitment (any
/// other digest is refused with `InvalidReveal`); once a choice is recorded,
/// every further reveal of that player in the round is refused with
/// `ChoiceAlreadyRevealed`, whatever it reveals.
pub proof fn law_reveal_is_checked_and_accepted_once(
    s: ArenaStorageView,
    player: AccountId,
    choice: Choice,
    digest: Seq<u8>,
    other_digest: Seq<u8>,
    now: u64,
)
    requires
        s.config matches Some(c) && !c.paused && now >= c.commit_deadline,
        choice_for(s, player, current_round(s.config->0)) is None,
        commitment_for(s, player, current_round(s.config->0)) is Some,
    ensures
        (reveal_rejection(s, player, digest, now) is None) <==> (commitment_for(
            s,
            player,
            current_round(s.config->0),
        )->0@ == digest),
        commitment_for(s, player, current_round(s.config->0))->0@ != digest ==> reveal_rejection(
            s,
            player,
            digest,
            now,
        ) == Some(ArenaError::InvalidReveal),
        reveal_rejection(
            ArenaStorageView {
                choices: s.choices.insert(player, (current_round(s.config->0), choice)),
                ..s
            },
            player,
            other_digest,
            now,
        ) == Some(ArenaError::ChoiceAlreadyRevealed),
{
}

/// A claim never pays more than the vault gave back: when the vault
/// answered the withdrawal with `withdrawn`, the amount paid is at most the
/// payout and at most `withdrawn`, and it is one of the two (their
/// minimum); when the vault did not answer, the payout is paid.
pub proof fn law_claim_pays_at_most_what_the_vault_returned(payout: i128, withdrawn: i128)
    ensures
        claim_total(payout, Some(withdrawn)) <= payout,
        claim_total(payout, Some(withdrawn)) <= withdrawn,
        claim_total(payout, Some(withdrawn)) == payout || claim_total(payout, Some(withdrawn))
            == withdrawn,
        claim_total(payout, None) == payout,
{
}

/// A round ends the game exactly when at most one player survives it:
/// after a successful resolution the arena is `Finished` when the round
/// leaves at most one survivor, and `Open` (ready for the next round) when
/// two or more survive; the recorded round result reports that survivor
/// count.
pub proof fn law_game_ends_with_at_most_one_survivor(
    s: ArenaStorageView,
    now: u64,
    oracle_bps: Option<u32>,
    vault_reading: Option<i128>,
)
    requires
        resolve_rejection(s, now) is None,
    ensures
        ({
            let round = current_round(s.config->0);
            let survivors = round_resolution(s, round).survivors;
            let after = resolved_storage(s, oracle_bps, vault_reading);
            &&& survivors <= 1 ==> after.config->0.state == GameState::Finished
            &&& survivors >= 2 ==> after.config->0.state == GameState::Open
            &&& after.round_results[round].survivors == survivors as u32
            &&& after.round_results[round].round == round
        }),
{
}

} // verus!
