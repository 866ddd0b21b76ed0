//! What the fee arena's entry points guarantee across a round and across
//! calls.

use vstd::prelude::*;

use super::contract::{
    claim_rejection, initialize_rejection, join_rejection, platform_fee, pot, refund_rejection,
    slashed_amount, submit_rejection,
};
use super::validation::MIN_ENTRY_FEE;
use super::errors::ArenaError;
use super::resolution::{
    afk_pass, cull, first_active, is_on, resolve_rejection, resolved_storage, round_outcome,
    round_votes, surviving_side, votes_for,
};
use super::storage::{choice_of, ArenaStorageView};
use super::types::{ArenaConfig, Choice, GameState};
use crate::AccountId;

verus! {

/// The side other than `c`.
pub open spec fn other_side(c: Choice) -> Choice {
    match c {
        Choice::Heads => Choice::Tails,
        Choice::Tails => Choice::Heads,
    }
}

/// How many listed players are active in a stored state (a player listed
/// twice counts twice).
pub open spec fn active_count(s: ArenaStorageView, players: Seq<AccountId>) -> nat
    decreases players.len(),
{
    if players.len() == 0 {
        0
    } else {
        active_count(s, players.drop_last()) + if is_on(s.active, players.last()) {
            1nat
        } else {
            0nat
        }
    }
}

/// Facts about the first pass of a round over any prefix of the players.
proof fn lemma_afk_pass_facts(s: ArenaStorageView, players: Seq<AccountId>)
    ensures
        ({
            let a = afk_pass(s, players);
            &&& forall|i: int|
                0 <= i < a.voters.len() ==> is_on(s.active, #[trigger] a.voters[i]) && choice_of(
                    s,
                    a.voters[i],
                ) is Some
            &&& forall|i: int|
                0 <= i < a.afk.len() ==> is_on(s.active, #[trigger] a.afk[i]) && choice_of(
                    s,
                    a.afk[i],
                ) is None && !is_on(a.active, a.afk[i])
            &&& forall|p: AccountId| #[trigger] is_on(a.active, p) ==> is_on(s.active, p)
            &&& forall|j: int|
                0 <= j < players.len() && is_on(s.active, #[trigger] players[j]) && choice_of(
                    s,
                    players[j],
                ) is None ==> !is_on(a.active, players[j])
        }),
    decreases players.len(),
{
    if players.len() > 0 {
        lemma_afk_pass_facts(s, players.drop_last());
        let r = afk_pass(s, players.drop_last());
        let a = afk_pass(s, players);
        let p = players.last();
        assert forall|j: int|
            0 <= j < players.len() && is_on(s.active, #[trigger] players[j]) && choice_of(
                s,
                players[j],
            ) is None implies !is_on(a.active, players[j]) by {
            if j < players.len() - 1 {
                assert(players.drop_last()[j] == players[j]);
            }
        }
    }
}

/// With no player listed twice, the first pass sees each active player
/// once: the absentees and the voters together are the active players.
proof fn lemma_afk_pass_count(s: ArenaStorageView, players: Seq<AccountId>)
    requires
        players.no_duplicates(),
    ensures
        afk_pass(s, players).afk.len() + afk_pass(s, players).voters.len() == active_count(
            s,
            players,
        ),
        forall|q: AccountId|
            (forall|j: int| 0 <= j < players.len() ==> players[j] != q) ==> (#[trigger] is_on(
                afk_pass(s, players).active,
                q,
            ) == is_on(s.active, q)),
    decreases players.len(),
{
    if players.len() > 0 {
        let prefix = players.drop_last();
        assert(prefix.no_duplicates()) by {
            assert forall|i: int, j: int|
                0 <= i < prefix.len() && 0 <= j < prefix.len() && i != j implies prefix[i]
                != prefix[j] by {
                assert(prefix[i] == players[i] && prefix[j] == players[j]);
            }
        }
        lemma_afk_pass_count(s, prefix);
        let p = players.last();
        assert forall|j: int| 0 <= j < prefix.len() implies prefix[j] != p by {
            assert(prefix[j] == players[j]);
            assert(p == players[players.len() - 1]);
        }
        assert(is_on(afk_pass(s, prefix).active, p) == is_on(s.active, p));
        let a = afk_pass(s, players);
        assert forall|q: AccountId|
            (forall|j: int| 0 <= j < players.len() ==> players[j] != q) implies (#[trigger] is_on(
                a.active,
                q,
            ) == is_on(s.active, q)) by {
            assert(q != players[players.len() - 1]);
            assert forall|j: int| 0 <= j < prefix.len() implies prefix[j] != q by {
                assert(prefix[j] == players[j]);
            }
        }
    }
}

/// Facts about the second pass over voters that all made a choice.
proof fn lemma_cull_facts(
    active: Map<AccountId, bool>,
    s: ArenaStorageView,
    voters: Seq<AccountId>,
    side: Choice,
)
    requires
        forall|i: int| 0 <= i < voters.len() ==> choice_of(s, #[trigger] voters[i]) is Some,
    ensures
        cull(active, s, voters, side).survivors == votes_for(s, voters, side),
        cull(active, s, voters, side).eliminated.len() == votes_for(s, voters, other_side(side)),
        forall|i: int|
            0 <= i < cull(active, s, voters, side).eliminated.len() ==> choice_of(
                s,
                #[trigger] cull(active, s, voters, side).eliminated[i],
            ) == Some(other_side(side)) && !is_on(
                cull(active, s, voters, side).active,
                cull(active, s, voters, side).eliminated[i],
            ),
        forall|p: AccountId| #[trigger]
            is_on(cull(active, s, voters, side).active, p) ==> is_on(active, p),
    decreases voters.len(),
{
    if voters.len() > 0 {
        let prefix = voters.drop_last();
        assert forall|i: int| 0 <= i < prefix.len() implies choice_of(
            s,
            #[trigger] prefix[i],
        ) is Some by {
            assert(prefix[i] == voters[i]);
        }
        lemma_cull_facts(active, s, prefix, side);
        let p = voters.last();
        assert(choice_of(s, voters[voters.len() - 1]) is Some);
        let r = cull(active, s, prefix, side);
        let c = cull(active, s, voters, side);
        let x = choice_of(s, p)->0;
        if x != side {
            assert(x == other_side(side));
            assert forall|i: int| 0 <= i < c.eliminated.len() implies choice_of(
                s,
                #[trigger] c.eliminated[i],
            ) == Some(other_side(side)) && !is_on(c.active, c.eliminated[i]) by {
                if i < r.eliminated.len() {
                    assert(c.eliminated[i] == r.eliminated[i]);
                } else {
                    assert(c.eliminated[i] == p);
                }
            }
        } else {
            assert(x != other_side(side));
        }
        assert forall|q: AccountId| #[trigger] is_on(c.active, q) implies is_on(active, q) by {
            if q != p {
                assert(is_on(r.active, q));
            }
        }
    }
}

/// Every voter counted by the first pass made a choice.
proof fn lemma_voter_counts(s: ArenaStorageView)
    ensures
        ({
            let a = afk_pass(s, s.players);
            votes_for(s, a.voters, Choice::Heads) + votes_for(s, a.voters, Choice::Tails)
                == a.voters.len()
        }),
{
    lemma_afk_pass_facts(s, s.players);
    lemma_votes_partition(s, afk_pass(s, s.players).voters);
}

proof fn lemma_votes_partition(s: ArenaStorageView, voters: Seq<AccountId>)
    requires
        forall|i: int| 0 <= i < voters.len() ==> choice_of(s, #[trigger] voters[i]) is Some,
    ensures
        votes_for(s, voters, Choice::Heads) + votes_for(s, voters, Choice::Tails) == voters.len(),
    decreases voters.len(),
{
    if voters.len() > 0 {
        let prefix = voters.drop_last();
        assert forall|i: int| 0 <= i < prefix.len() implies choice_of(
            s,
            #[trigger] prefix[i],
        ) is Some by {
            assert(prefix[i] == voters[i]);
        }
        lemma_votes_partition(s, prefix);
        assert(choice_of(s, voters[voters.len() - 1]) is Some);
    }
}

/// Minority wins: when the votes of a round are not tied, exactly the
/// voters of the smaller side survive, every voter of the larger side is
/// eliminated together with every active player who did not choose, and
/// nobody else is.
pub proof fn law_minority_wins(s: ArenaStorageView)
    requires
        round_votes(s).0 != round_votes(s).1,
    ensures
        ({
            let (heads, tails) = round_votes(s);
            let o = round_outcome(s);
            let a = afk_pass(s, s.players);
            let minority = if heads < tails {
                Choice::Heads
            } else {
                Choice::Tails
            };
            &&& o.survivors == (if heads < tails {
                heads
            } else {
                tails
            })
            &&& o.eliminated.len() == a.afk.len() + (if heads < tails {
                tails
            } else {
                heads
            })
            &&& forall|i: int|
                0 <= i < o.eliminated.len() ==> (choice_of(s, #[trigger] o.eliminated[i]) is None
                    || choice_of(s, o.eliminated[i]) == Some(other_side(minority)))
        }),
{
    let a = afk_pass(s, s.players);
    lemma_afk_pass_facts(s, s.players);
    let (heads, tails) = round_votes(s);
    let minority = if heads < tails {
        Choice::Heads
    } else {
        Choice::Tails
    };
    assert(surviving_side(heads, tails, a.voters.len()) == Some(minority));
    lemma_cull_facts(a.active, s, a.voters, minority);
    let c = cull(a.active, s, a.voters, minority);
    let o = round_outcome(s);
    assert forall|i: int| 0 <= i < o.eliminated.len() implies (choice_of(
        s,
        #[trigger] o.eliminated[i],
    ) is None || choice_of(s, o.eliminated[i]) == Some(other_side(minority))) by {
        if i < a.afk.len() {
            assert(o.eliminated[i] == a.afk[i]);
        } else {
            assert(o.eliminated[i] == c.eliminated[i - a.afk.len()]);
        }
    }
}

/// A tie between exactly two voters is broken for `Heads`: one player
/// survives, the `Tails` voter is eliminated along with the absentees, and
/// the game is finished.
pub proof fn law_tie_of_two_is_broken(s: ArenaStorageView)
    requires
        resolve_rejection(s) is None,
        round_votes(s).0 == round_votes(s).1,
        afk_pass(s, s.players).voters.len() == 2,
    ensures
        round_outcome(s).survivors == 1,
        round_outcome(s).eliminated.len() == afk_pass(s, s.players).afk.len() + 1,
        forall|i: int|
            afk_pass(s, s.players).afk.len() <= i < round_outcome(s).eliminated.len() ==> choice_of(
                s,
                #[trigger] round_outcome(s).eliminated[i],
            ) == Some(Choice::Tails),
        resolved_storage(s).config->0.state == GameState::Finished,
{
    let a = afk_pass(s, s.players);
    lemma_afk_pass_facts(s, s.players);
    lemma_voter_counts(s);
    lemma_cull_facts(a.active, s, a.voters, Choice::Heads);
    let c = cull(a.active, s, a.voters, Choice::Heads);
    let o = round_outcome(s);
    assert forall|i: int| a.afk.len() <= i < o.eliminated.len() implies choice_of(
        s,
        #[trigger] o.eliminated[i],
    ) == Some(Choice::Tails) by {
        assert(o.eliminated[i] == c.eliminated[i - a.afk.len()]);
    }
}

/// Any other tie eliminates nobody but the absentees: every voter
/// survives.
pub proof fn law_other_ties_spare_the_voters(s: ArenaStorageView)
    requires
        round_votes(s).0 == round_votes(s).1,
        afk_pass(s, s.players).voters.len() != 2,
    ensures
        round_outcome(s).eliminated == afk_pass(s, s.players).afk,
        round_outcome(s).survivors == afk_pass(s, s.players).voters.len(),
{
}

/// Absent players are eliminated: every listed player who was active
/// before the round and made no choice is inactive after it.
pub proof fn law_absent_players_are_eliminated(s: ArenaStorageView, p: AccountId)
    requires
        s.players.contains(p),
        is_on(s.active, p),
        choice_of(s, p) is None,
    ensures
        !is_on(round_outcome(s).active, p),
{
    lemma_afk_pass_facts(s, s.players);
    let a = afk_pass(s, s.players);
    let j = choose|j: int| 0 <= j < s.players.len() && s.players[j] == p;
    assert(!is_on(a.active, s.players[j]));
    let (heads, tails) = round_votes(s);
    if let Some(side) = surviving_side(heads, tails, a.voters.len()) {
        lemma_afk_pass_facts(s, s.players);
        lemma_cull_facts(a.active, s, a.voters, side);
    }
}

/// Elimination is final: a round never makes an inactive player active,
/// and every player it eliminates is inactive after it.
pub proof fn law_elimination_is_final(s: ArenaStorageView, p: AccountId)
    ensures
        is_on(round_outcome(s).active, p) ==> is_on(s.active, p),
        round_outcome(s).eliminated.contains(p) ==> !is_on(round_outcome(s).active, p),
{
    lemma_afk_pass_facts(s, s.players);
    let a = afk_pass(s, s.players);
    let o = round_outcome(s);
    let (heads, tails) = round_votes(s);
    if let Some(side) = surviving_side(heads, tails, a.voters.len()) {
        lemma_cull_facts(a.active, s, a.voters, side);
        let c = cull(a.active, s, a.voters, side);
        if o.eliminated.contains(p) {
            let i = choose|i: int| 0 <= i < o.eliminated.len() && o.eliminated[i] == p;
            if i < a.afk.len() {
                assert(o.eliminated[i] == a.afk[i]);
                assert(!is_on(a.active, p));
            } else {
                assert(o.eliminated[i] == c.eliminated[i - a.afk.len()]);
            }
        }
    } else if o.eliminated.contains(p) {
        let i = choose|i: int| 0 <= i < o.eliminated.len() && o.eliminated[i] == p;
        assert(a.afk[i] == p);
    }
}

/// Every active player is accounted for: when nobody is listed twice, the
/// eliminations and the survivors of a round add up to the players that
/// were active before it.
pub proof fn law_every_active_player_is_resolved(s: ArenaStorageView)
    requires
        s.players.no_duplicates(),
    ensures
        round_outcome(s).eliminated.len() + round_outcome(s).survivors == active_count(
            s,
            s.players,
        ),
{
    lemma_afk_pass_count(s, s.players);
    lemma_afk_pass_facts(s, s.players);
    lemma_voter_counts(s);
    let a = afk_pass(s, s.players);
    let (heads, tails) = round_votes(s);
    if let Some(side) = surviving_side(heads, tails, a.voters.len()) {
        lemma_cull_facts(a.active, s, a.voters, side);
        assert(side == Choice::Heads || side == Choice::Tails);
    }
}

/// The first active player of a list is listed and active.
proof fn lemma_first_active_is_active(active: Map<AccountId, bool>, players: Seq<AccountId>)
    ensures
        first_active(active, players) matches Some(w) ==> is_on(active, w) && players.contains(w),
    decreases players.len(),
{
    if players.len() > 0 && !is_on(active, players[0]) {
        let rest = players.drop_first();
        lemma_first_active_is_active(active, rest);
        if let Some(w) = first_active(active, rest) {
            let j = choose|j: int| 0 <= j < rest.len() && rest[j] == w;
            assert(players[j + 1] == w);
        }
    } else if players.len() > 0 {
        assert(players[0] == players[0]);
    }
}

/// A round finishes the game exactly when at most one player survives it,
/// and a winner recorded by the round is a listed player who is still
/// active.
pub proof fn law_game_ends_with_the_last_survivor(s: ArenaStorageView)
    requires
        resolve_rejection(s) is None,
    ensures
        (resolved_storage(s).config->0.state == GameState::Finished) <==> (round_outcome(
            s,
        ).survivors <= 1),
        resolved_storage(s).winner != s.winner ==> ({
            let w = resolved_storage(s).winner->0;
            &&& resolved_storage(s).winner is Some
            &&& is_on(round_outcome(s).active, w)
            &&& s.players.contains(w)
        }),
{
    lemma_first_active_is_active(round_outcome(s).active, s.players);
}

/// A sequence without repetitions stays without repetitions when an item it
/// does not hold is appended.
proof fn lemma_push_keeps_distinct(xs: Seq<AccountId>, x: AccountId)
    requires
        xs.no_duplicates(),
        !xs.contains(x),
    ensures
        xs.push(x).no_duplicates(),
{
    let ys = xs.push(x);
    assert forall|i: int, j: int| 0 <= i < ys.len() && 0 <= j < ys.len() && i != j implies ys[i]
        != ys[j] by {
        if i < xs.len() && j < xs.len() {
            assert(ys[i] == xs[i] && ys[j] == xs[j]);
        } else if i < xs.len() {
            assert(ys[i] == xs[i]);
        } else if j < xs.len() {
            assert(ys[j] == xs[j]);
        }
    }
}

/// The players before the last one of a list without repetitions hold no
/// repetition and not the last one.
proof fn lemma_prefix_distinct(players: Seq<AccountId>)
    requires
        players.no_duplicates(),
        players.len() > 0,
    ensures
        players.drop_last().no_duplicates(),
        !players.drop_last().contains(players.last()),
        forall|x: AccountId| #[trigger] players.drop_last().contains(x) ==> players.contains(x),
{
    let prefix = players.drop_last();
    assert forall|i: int, j: int|
        0 <= i < prefix.len() && 0 <= j < prefix.len() && i != j implies prefix[i] != prefix[j] by {
        assert(prefix[i] == players[i] && prefix[j] == players[j]);
    }
    if prefix.contains(players.last()) {
        let j = choose|j: int| 0 <= j < prefix.len() && prefix[j] == players.last();
        assert(players[j] == players[players.len() - 1]);
    }
    assert forall|x: AccountId| #[trigger] prefix.contains(x) implies players.contains(x) by {
        let j = choose|j: int| 0 <= j < prefix.len() && prefix[j] == x;
        assert(players[j] == x);
    }
}

/// With no player listed twice, the first pass records each absentee and
/// each voter once and never both, records only listed players, and every
/// player it turns off is an absentee.
proof fn lemma_afk_pass_distinct(s: ArenaStorageView, players: Seq<AccountId>)
    requires
        players.no_duplicates(),
    ensures
        ({
            let a = afk_pass(s, players);
            &&& a.afk.no_duplicates()
            &&& a.voters.no_duplicates()
            &&& forall|x: AccountId| #[trigger] a.afk.contains(x) ==> players.contains(x)
            &&& forall|x: AccountId| #[trigger] a.voters.contains(x) ==> players.contains(x)
            &&& forall|x: AccountId| a.afk.contains(x) ==> !#[trigger] a.voters.contains(x)
            &&& forall|q: AccountId|
                is_on(s.active, q) && !#[trigger] is_on(a.active, q) ==> a.afk.contains(q)
        }),
    decreases players.len(),
{
    if players.len() > 0 {
        let prefix = players.drop_last();
        lemma_prefix_distinct(players);
        lemma_afk_pass_distinct(s, prefix);
        let p = players.last();
        let r = afk_pass(s, prefix);
        let a = afk_pass(s, players);
        assert(!r.afk.contains(p));
        assert(!r.voters.contains(p));
        if !is_on(r.active, p) {
        } else if choice_of(s, p) is None {
            lemma_push_keeps_distinct(r.afk, p);
            assert forall|x: AccountId| #[trigger] a.afk.contains(x) implies players.contains(x) by {
                if x != p {
                    let i = choose|i: int| 0 <= i < a.afk.len() && a.afk[i] == x;
                    assert(r.afk[i] == x);
                    assert(r.afk.contains(x));
                    assert(prefix.contains(x));
                } else {
                    assert(players[players.len() - 1] == p);
                }
            }
            assert forall|x: AccountId| a.afk.contains(x) implies !#[trigger] a.voters.contains(x) by {
                if x != p {
                    let i = choose|i: int| 0 <= i < a.afk.len() && a.afk[i] == x;
                    assert(r.afk[i] == x);
                }
            }
            assert forall|q: AccountId|
                is_on(s.active, q) && !#[trigger] is_on(a.active, q) implies a.afk.contains(q) by {
                if q == p {
                    assert(a.afk[a.afk.len() - 1] == p);
                } else {
                    assert(!is_on(r.active, q));
                    assert(r.afk.contains(q));
                    let i = choose|i: int| 0 <= i < r.afk.len() && r.afk[i] == q;
                    assert(a.afk[i] == q);
                }
            }
        } else {
            lemma_push_keeps_distinct(r.voters, p);
            assert forall|x: AccountId| #[trigger] a.voters.contains(x) implies players.contains(
                x,
            ) by {
                if x != p {
                    let i = choose|i: int| 0 <= i < a.voters.len() && a.voters[i] == x;
                    assert(r.voters[i] == x);
                    assert(r.voters.contains(x));
                    assert(prefix.contains(x));
                } else {
                    assert(players[players.len() - 1] == p);
                }
            }
            assert forall|x: AccountId| a.afk.contains(x) implies !#[trigger] a.voters.contains(x) by {
                if a.voters.contains(x) && x != p {
                    let i = choose|i: int| 0 <= i < a.voters.len() && a.voters[i] == x;
                    assert(r.voters[i] == x);
                    assert(r.voters.contains(x));
                }
            }
        }
    }
}

/// Over voters listed once, the second pass eliminates each player at most
/// once, only voters, and every player it turns off is eliminated.
proof fn lemma_cull_distinct(
    active: Map<AccountId, bool>,
    s: ArenaStorageView,
    voters: Seq<AccountId>,
    side: Choice,
)
    requires
        voters.no_duplicates(),
    ensures
        ({
            let c = cull(active, s, voters, side);
            &&& c.eliminated.no_duplicates()
            &&& forall|x: AccountId| #[trigger] c.eliminated.contains(x) ==> voters.contains(x)
            &&& forall|q: AccountId|
                is_on(active, q) && !#[trigger] is_on(c.active, q) ==> c.eliminated.contains(q)
        }),
    decreases voters.len(),
{
    if voters.len() > 0 {
        let prefix = voters.drop_last();
        lemma_prefix_distinct(voters);
        lemma_cull_distinct(active, s, prefix, side);
        let p = voters.last();
        let r = cull(active, s, prefix, side);
        let c = cull(active, s, voters, side);
        assert(!r.eliminated.contains(p));
        if choice_of(s, p) is Some && choice_of(s, p)->0 != side {
            lemma_push_keeps_distinct(r.eliminated, p);
            assert forall|x: AccountId| #[trigger] c.eliminated.contains(x) implies voters.contains(
                x,
            ) by {
                if x != p {
                    let i = choose|i: int| 0 <= i < c.eliminated.len() && c.eliminated[i] == x;
                    assert(r.eliminated[i] == x);
                    assert(r.eliminated.contains(x));
                    assert(prefix.contains(x));
                } else {
                    assert(voters[voters.len() - 1] == p);
                }
            }
            assert forall|q: AccountId|
                is_on(active, q) && !#[trigger] is_on(c.active, q) implies c.eliminated.contains(
                q,
            ) by {
                if q == p {
                    assert(c.eliminated[c.eliminated.len() - 1] == p);
                } else {
                    assert(!is_on(r.active, q));
                    assert(r.eliminated.contains(q));
                    let i = choose|i: int| 0 <= i < r.eliminated.len() && r.eliminated[i] == q;
                    assert(c.eliminated[i] == q);
                }
            }
        }
    }
}

/// Counting the listed players that are active, before and after a change
/// that turns off exactly the players of `e`, all of them listed and
/// active before: the count drops by the size of `e`.
proof fn lemma_count_without(
    s0: ArenaStorageView,
    s1: ArenaStorageView,
    players: Seq<AccountId>,
    e: Set<AccountId>,
)
    requires
        players.no_duplicates(),
        e.finite(),
        forall|p: AccountId| #[trigger] e.contains(p) ==> players.contains(p) && is_on(s0.active, p),
        forall|j: int|
            0 <= j < players.len() ==> (is_on(s1.active, #[trigger] players[j]) <==> (is_on(
                s0.active,
                players[j],
            ) && !e.contains(players[j]))),
    ensures
        active_count(s1, players) + e.len() == active_count(s0, players),
    decreases players.len(),
{
    if players.len() == 0 {
        assert(e =~= Set::empty());
    } else {
        let prefix = players.drop_last();
        let p = players.last();
        lemma_prefix_distinct(players);
        let e2 = e.remove(p);
        assert forall|q: AccountId| #[trigger] e2.contains(q) implies prefix.contains(q) && is_on(
            s0.active,
            q,
        ) by {
            let j = choose|j: int| 0 <= j < players.len() && players[j] == q;
            assert(j != players.len() - 1);
            assert(prefix[j] == q);
        }
        assert forall|j: int| 0 <= j < prefix.len() implies (is_on(
            s1.active,
            #[trigger] prefix[j],
        ) <==> (is_on(s0.active, prefix[j]) && !e2.contains(prefix[j]))) by {
            assert(prefix[j] == players[j]);
            assert(players[j] != players[players.len() - 1]);
        }
        lemma_count_without(s0, s1, prefix, e2);
        assert(players[players.len() - 1] == p);
        if !e.contains(p) {
            assert(e2 =~= e);
        }
    }
}

/// Two different listed players that are active make the count at least
/// two.
proof fn lemma_count_two(s: ArenaStorageView, players: Seq<AccountId>, w: AccountId, q: AccountId)
    requires
        players.contains(w),
        players.contains(q),
        w != q,
        is_on(s.active, w),
        is_on(s.active, q),
    ensures
        active_count(s, players) >= 2,
    decreases players.len(),
{
    let prefix = players.drop_last();
    let last = players.last();
    let jw = choose|j: int| 0 <= j < players.len() && players[j] == w;
    let jq = choose|j: int| 0 <= j < players.len() && players[j] == q;
    if jw < players.len() - 1 && jq < players.len() - 1 {
        assert(prefix[jw] == w && prefix[jq] == q);
        lemma_count_two(s, prefix, w, q);
    } else {
        let other = if jw == players.len() - 1 { q } else { w };
        let jo = if jw == players.len() - 1 { jq } else { jw };
        assert(jo < players.len() - 1);
        assert(prefix[jo] == other);
        lemma_count_one(s, prefix, other);
    }
}

/// A listed active player makes the count at least one.
proof fn lemma_count_one(s: ArenaStorageView, players: Seq<AccountId>, w: AccountId)
    requires
        players.contains(w),
        is_on(s.active, w),
    ensures
        active_count(s, players) >= 1,
    decreases players.len(),
{
    let j = choose|j: int| 0 <= j < players.len() && players[j] == w;
    if j < players.len() - 1 {
        assert(players.drop_last()[j] == w);
        lemma_count_one(s, players.drop_last(), w);
    }
}

/// The players still in the game after a round are exactly its survivors.
/// When nobody is listed twice: a listed player is active after the round
/// exactly when it was active before and was not eliminated, nobody is
/// eliminated twice, the listed players still active number exactly the
/// survivors, and when one player survives, the round's winner (if it
/// records one) is that player and nobody else is active.
pub proof fn law_survivors_are_the_remaining_players(s: ArenaStorageView)
    requires
        s.players.no_duplicates(),
    ensures
        forall|j: int|
            0 <= j < s.players.len() ==> (is_on(round_outcome(s).active, #[trigger] s.players[j])
                <==> (is_on(s.active, s.players[j]) && !round_outcome(s).eliminated.contains(
                s.players[j],
            ))),
        round_outcome(s).eliminated.no_duplicates(),
        active_count(resolved_storage(s), s.players) == round_outcome(s).survivors,
        round_outcome(s).survivors == 1 && resolved_storage(s).winner != s.winner ==> forall|
            q: AccountId,
        |
            #![trigger is_on(round_outcome(s).active, q)]
            s.players.contains(q) && is_on(round_outcome(s).active, q) ==> q
                == resolved_storage(s).winner->0,
{
    let a = afk_pass(s, s.players);
    let o = round_outcome(s);
    lemma_afk_pass_facts(s, s.players);
    lemma_afk_pass_distinct(s, s.players);
    let (heads, tails) = round_votes(s);
    let side = surviving_side(heads, tails, a.voters.len());
    if let Some(sd) = side {
        lemma_cull_facts(a.active, s, a.voters, sd);
        lemma_cull_distinct(a.active, s, a.voters, sd);
        let c = cull(a.active, s, a.voters, sd);
        assert(o.eliminated == a.afk + c.eliminated);
        assert forall|i: int, j: int|
            0 <= i < o.eliminated.len() && 0 <= j < o.eliminated.len() && i != j implies o.eliminated[i]
            != o.eliminated[j] by {
            if i < a.afk.len() && j < a.afk.len() {
            } else if i >= a.afk.len() && j >= a.afk.len() {
                assert(o.eliminated[i] == c.eliminated[i - a.afk.len()]);
                assert(o.eliminated[j] == c.eliminated[j - a.afk.len()]);
            } else if i < a.afk.len() {
                assert(o.eliminated[i] == a.afk[i]);
                assert(o.eliminated[j] == c.eliminated[j - a.afk.len()]);
                assert(c.eliminated.contains(c.eliminated[j - a.afk.len()]));
                assert(a.afk.contains(a.afk[i]));
            } else {
                assert(o.eliminated[j] == a.afk[j]);
                assert(o.eliminated[i] == c.eliminated[i - a.afk.len()]);
                assert(c.eliminated.contains(c.eliminated[i - a.afk.len()]));
                assert(a.afk.contains(a.afk[j]));
            }
        }
        assert forall|x: AccountId| o.eliminated.contains(x) <==> (a.afk.contains(x)
            || c.eliminated.contains(x)) by {
            if o.eliminated.contains(x) {
                let i = choose|i: int| 0 <= i < o.eliminated.len() && o.eliminated[i] == x;
                if i < a.afk.len() {
                    assert(a.afk[i] == x);
                } else {
                    assert(c.eliminated[i - a.afk.len()] == x);
                }
            }
            if a.afk.contains(x) {
                let i = choose|i: int| 0 <= i < a.afk.len() && a.afk[i] == x;
                assert(o.eliminated[i] == x);
            }
            if c.eliminated.contains(x) {
                let i = choose|i: int| 0 <= i < c.eliminated.len() && c.eliminated[i] == x;
                assert(o.eliminated[i + a.afk.len()] == x);
            }
        }
    }
    assert forall|j: int|
        0 <= j < s.players.len() implies (is_on(o.active, #[trigger] s.players[j]) <==> (is_on(
        s.active,
        s.players[j],
    ) && !o.eliminated.contains(s.players[j]))) by {
        law_elimination_is_final(s, s.players[j]);
    }
    let e = o.eliminated.to_set();
    broadcast use vstd::seq_lib::seq_to_set_is_finite;
    o.eliminated.unique_seq_to_set();
    assert forall|p: AccountId| #[trigger] e.contains(p) implies s.players.contains(p) && is_on(
        s.active,
        p,
    ) by {
        let i = choose|i: int| 0 <= i < o.eliminated.len() && o.eliminated[i] == p;
        assert(o.eliminated.contains(p));
        if let Some(sd) = side {
            let c = cull(a.active, s, a.voters, sd);
            if i < a.afk.len() {
                assert(a.afk[i] == p);
            } else {
                assert(c.eliminated[i - a.afk.len()] == p);
                assert(c.eliminated.contains(p));
                let k = choose|k: int| 0 <= k < a.voters.len() && a.voters[k] == p;
                assert(a.voters.contains(a.voters[k]));
            }
        } else {
            assert(a.afk[i] == p);
        }
    }
    lemma_count_without(s, resolved_storage(s), s.players, e);
    law_every_active_player_is_resolved(s);
    lemma_first_active_is_active(o.active, s.players);
    if o.survivors == 1 && resolved_storage(s).winner != s.winner {
        let w = resolved_storage(s).winner->0;
        assert forall|q: AccountId|
            #![trigger is_on(o.active, q)]
            s.players.contains(q) && is_on(o.active, q) implies q == w by {
            if q != w {
                lemma_count_two(resolved_storage(s), s.players, w, q);
            }
        }
    }
}

/// A prize is paid at most once: after a successful claim, every further
/// claim is refused, whoever makes it.
pub proof fn law_prize_is_claimed_at_most_once(
    s: ArenaStorageView,
    winner: AccountId,
    other: AccountId,
)
    requires
        claim_rejection(s, winner) is None,
    ensures
        claim_rejection(ArenaStorageView { prize_claimed: true, ..s }, other)
            == Some(ArenaError::PrizeAlreadyClaimed),
{
}

/// Only the recorded winner is paid, and the pot is split once: in a
/// finished, unpaused arena whose prize is unclaimed, any other caller is
/// refused with `PlayerEliminated`; the winner's claim is accepted and pays
/// the admin 10% of the pot (rounded toward zero; for a non-negative pot,
/// rounded down and at most the pot) and the winner the rest, the two parts
/// adding up to the pot; after it every claim is
/// refused with `PrizeAlreadyClaimed`.
pub proof fn law_claim_pays_only_the_winner(s: ArenaStorageView, w: AccountId, x: AccountId)
    requires
        s.config matches Some(c) && !c.paused && c.state == GameState::Finished,
        !s.prize_claimed,
        s.winner == Some(w),
    ensures
        x != w ==> claim_rejection(s, x) == Some(ArenaError::PlayerEliminated),
        claim_rejection(s, w) is None,
        pot(s.config->0) >= 0 ==> platform_fee(s.config->0) == pot(s.config->0) * 1000 / 10000,
        pot(s.config->0) >= 0 ==> 0 <= platform_fee(s.config->0) <= pot(s.config->0),
        platform_fee(s.config->0) + (pot(s.config->0) - platform_fee(s.config->0)) == pot(
            s.config->0,
        ),
        claim_rejection(ArenaStorageView { prize_claimed: true, ..s }, x) == Some(
            ArenaError::PrizeAlreadyClaimed,
        ),
{
    let p = pot(s.config->0);
    if p >= 0 {
        assert(p * 1000 / 10000 <= p) by (nonlinear_arith)
            requires
                p >= 0,
        ;
        assert(p * 1000 / 10000 >= 0) by (nonlinear_arith)
            requires
                p >= 0,
        ;
    }
}

/// A refund is paid at most once per player: after a player's successful
/// refund, that player's next refund is refused.
pub proof fn law_refund_is_paid_at_most_once(s: ArenaStorageView, player: AccountId)
    requires
        refund_rejection(s, player) is None,
    ensures
        refund_rejection(
            ArenaStorageView { refund_claimed: s.refund_claimed.insert(player, true), ..s },
            player,
        ) == Some(ArenaError::RefundAlreadyClaimed),
{
}

/// While the arena is paused, joining, choosing, resolving and claiming
/// are all refused with `ContractPaused`.
pub proof fn law_pause_blocks_gameplay(s: ArenaStorageView, player: AccountId, now: u64)
    requires
        s.config matches Some(c) && c.paused,
    ensures
        join_rejection(s, now) == Some(ArenaError::ContractPaused),
        submit_rejection(s, player) == Some(ArenaError::ContractPaused),
        resolve_rejection(s) == Some(ArenaError::ContractPaused),
        claim_rejection(s, player) == Some(ArenaError::ContractPaused),
{
}

/// A creator stake is slashed whenever it is withdrawn before the game is
/// finished: in an `Open`, `InProgress` or `Cancelled` arena, a positive
/// stake forfeits `stake * slash_rate_bps / 10000` (rounded down) and only
/// the rest is returned; a `Finished` arena returns the whole stake. With a
/// rate of at most 100% the forfeit is never more than the stake, and with
/// the default rate of 50% a stake of 100_000 loses 50_000.
pub proof fn law_stake_is_slashed_until_the_game_finishes(c: ArenaConfig, stake: i128)
    requires
        stake > 0,
    ensures
        c.state != GameState::Finished ==> slashed_amount(c, stake) == stake * c.slash_rate_bps
            / 10000,
        c.state != GameState::Finished ==> stake - slashed_amount(c, stake) == stake - stake
            * c.slash_rate_bps / 10000,
        c.state == GameState::Finished ==> slashed_amount(c, stake) == 0,
        c.state == GameState::Finished ==> stake - slashed_amount(c, stake) == stake,
        slashed_amount(c, stake) >= 0,
        c.slash_rate_bps <= 10000 ==> slashed_amount(c, stake) <= stake,
        c.state != GameState::Finished && c.slash_rate_bps > 0 && stake >= 10000 ==> slashed_amount(
            c,
            stake,
        ) > 0,
        c.state != GameState::Finished && c.slash_rate_bps == 5000 && stake == 100_000
            ==> slashed_amount(c, stake) == 50_000,
{
    let rate = c.slash_rate_bps as int;
    let st = stake as int;
    assert(st * rate >= 0) by (nonlinear_arith)
        requires
            st > 0,
            rate >= 0,
    ;
    assert(st * rate / 10000 >= 0) by (nonlinear_arith)
        requires
            st * rate >= 0,
    ;
    if rate <= 10000 {
        assert(st * rate / 10000 <= st) by (nonlinear_arith)
            requires
                st > 0,
                0 <= rate <= 10000,
        ;
    }
    if rate > 0 && st >= 10000 {
        assert(st * rate >= 10000) by (nonlinear_arith)
            requires
                st >= 10000,
                rate >= 1,
        ;
    }
}

/// The creation cooldown holds back only other accounts, and only until
/// it has elapsed: with a valid fee and a future join deadline, a
/// re-initialization by another account than the current admin is refused
/// with `CooldownNotElapsed` exactly while `now` is before the last creation
/// time plus a positive cooldown, and accepted from then on; the admin is
/// never held back.
pub proof fn law_cooldown_holds_back_others_until_it_elapses(
    s: ArenaStorageView,
    admin: AccountId,
    entry_fee: i128,
    join_deadline: u64,
    now: u64,
)
    requires
        s.config is Some,
        entry_fee >= MIN_ENTRY_FEE,
        join_deadline > now,
    ensures
        ({
            let e = s.config->0;
            &&& admin != e.admin && e.creation_cooldown_seconds > 0 && now
                < e.last_creation_timestamp + e.creation_cooldown_seconds ==> initialize_rejection(
                s,
                admin,
                entry_fee,
                join_deadline,
                now,
            ) == Some(ArenaError::CooldownNotElapsed)
            &&& now >= e.last_creation_timestamp + e.creation_cooldown_seconds
                ==> initialize_rejection(s, admin, entry_fee, join_deadline, now) is None
            &&& admin == e.admin ==> initialize_rejection(s, admin, entry_fee, join_deadline, now)
                is None
        }),
{
}

/// Refunds come only out of a cancelled arena: in any other state the
/// refund is refused with `ArenaNotCancelled` (and, by `claim_refund`,
/// nothing moves); in a cancelled arena every listed player that has not
/// been refunded yet is refunded.
pub proof fn law_refunds_only_from_a_cancelled_arena(s: ArenaStorageView, player: AccountId)
    requires
        s.config is Some,
    ensures
        s.config->0.state != GameState::Cancelled ==> refund_rejection(s, player) == Some(
            ArenaError::ArenaNotCancelled,
        ),
        s.config->0.state == GameState::Cancelled && s.players.contains(player) && !(
        s.refund_claimed.contains_key(player) && s.refund_claimed[player]) ==> refund_rejection(
            s,
            player,
        ) is None,
{
}

} // verus!
