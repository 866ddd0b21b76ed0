//! Round elimination rules.
//!
//! Inverse Arena is a minority-wins game: the choice made by fewer players
//! survives the round and the majority is eliminated. A tie is
//! inconclusive; when every submitter picked the same side, that side
//! survives because there is no opposing majority.

use vstd::prelude::*;

use super::types::Choice;

verus! {

/// Vote counts for a single round.
#[derive(Clone, Copy, PartialEq, Eq, Structural, Debug)]
pub struct Tally {
    pub heads: u32,
    pub tails: u32,
}

impl Tally {
    /// Total number of votes.
    pub fn total(&self) -> (t: u32)
        requires
            self.heads + self.tails <= u32::MAX,
        ensures
            t == self.heads + self.tails,
    {
        self.heads + self.tails
    }
}

/// Number of occurrences of `c` in `s`.
pub open spec fn count_choice(s: Seq<Choice>, c: Choice) -> nat
    decreases s.len(),
{
    if s.len() == 0 {
        0
    } else {
        count_choice(s.drop_last(), c) + if s.last() == c { 1nat } else { 0nat }
    }
}

/// Every choice is either heads or tails, so the two counts add up to the length.
pub proof fn lemma_counts_partition(s: Seq<Choice>)
    ensures
        count_choice(s, Choice::Heads) + count_choice(s, Choice::Tails) == s.len(),
    decreases s.len(),
{
    if s.len() > 0 {
        lemma_counts_partition(s.drop_last());
    }
}

/// Count the revealed choices for a round.
pub fn tally_choices(choices: &Vec<Choice>) -> (t: Tally)
    requires
        choices.len() <= u32::MAX,
    ensures
        t.heads == count_choice(choices@, Choice::Heads),
        t.tails == count_choice(choices@, Choice::Tails),
{
    let mut heads: u32 = 0;
    let mut tails: u32 = 0;
    let mut i: usize = 0;
    while i < choices.len()
        invariant
            i <= choices.len(),
            choices.len() <= u32::MAX,
            heads == count_choice(choices@.take(i as int), Choice::Heads),
            tails == count_choice(choices@.take(i as int), Choice::Tails),
        decreases choices.len() - i,
    {
        let ghost prefix = choices@.take(i as int);
        assert(choices@.take(i as int + 1).drop_last() == prefix);
        proof {
            lemma_counts_partition(prefix);
        }
        match choices[i] {
            Choice::Heads => heads += 1,
            Choice::Tails => tails += 1,
        }
        i += 1;
    }
    assert(choices@.take(choices.len() as int) == choices@);
    Tally { heads, tails }
}

/// The surviving choice of a tally under minority-wins rules.
pub open spec fn spec_surviving_choice(t: Tally) -> Option<Choice> {
    if t.heads == 0 && t.tails == 0 {
        None
    } else if t.tails == 0 {
        Some(Choice::Heads)
    } else if t.heads == 0 {
        Some(Choice::Tails)
    } else if t.heads == t.tails {
        None
    } else if t.heads < t.tails {
        Some(Choice::Heads)
    } else {
        Some(Choice::Tails)
    }
}

/// Whether a player who picked `choice` loses the round.
pub open spec fn spec_is_eliminated(choice: Choice, t: Tally) -> bool {
    match spec_surviving_choice(t) {
        Some(survivor) => choice != survivor,
        None => false,
    }
}

/// The surviving choice under minority-wins rules.
///
/// If both sides receive votes, the smaller side survives and the majority is
/// eliminated. A tie is inconclusive, so nobody is eliminated. If every
/// submitting player picked the same side, that side survives.
pub fn surviving_choice(tally: &Tally) -> (r: Option<Choice>)
    ensures
        r == spec_surviving_choice(*tally),
{
    if tally.heads == 0 && tally.tails == 0 {
        None
    } else if tally.tails == 0 {
        Some(Choice::Heads)
    } else if tally.heads == 0 {
        Some(Choice::Tails)
    } else if tally.heads == tally.tails {
        None
    } else if tally.heads < tally.tails {
        Some(Choice::Heads)
    } else {
        Some(Choice::Tails)
    }
}

/// Whether a player who picked `choice` is eliminated this round. On a tie
/// nobody is eliminated.
pub fn is_eliminated(choice: Choice, tally: &Tally) -> (e: bool)
    ensures
        e == spec_is_eliminated(choice, *tally),
{
    match surviving_choice(tally) {
        Some(survivor) => choice != survivor,
        None => false,
    }
}

/// Minority wins: when both sides received votes and the counts differ, the
/// side with fewer votes survives and every player on the larger side is
/// eliminated; on a tie, or with no votes, nobody is eliminated; when only
/// one side received votes, the players on that side are not eliminated.
pub proof fn lemma_minority_wins(t: Tally)
    ensures
        t.heads > 0 && t.tails > 0 && t.heads < t.tails ==> spec_surviving_choice(t) == Some(
            Choice::Heads,
        ) && spec_is_eliminated(Choice::Tails, t) && !spec_is_eliminated(Choice::Heads, t),
        t.heads > 0 && t.tails > 0 && t.tails < t.heads ==> spec_surviving_choice(t) == Some(
            Choice::Tails,
        ) && spec_is_eliminated(Choice::Heads, t) && !spec_is_eliminated(Choice::Tails, t),
        t.heads == t.tails ==> !spec_is_eliminated(Choice::Heads, t) && !spec_is_eliminated(
            Choice::Tails,
            t,
        ),
        t.tails == 0 ==> !spec_is_eliminated(Choice::Heads, t),
        t.heads == 0 ==> !spec_is_eliminated(Choice::Tails, t),
{
}

/// The surviving side never holds more votes than the eliminated side.
pub proof fn lemma_survivor_is_never_the_majority(t: Tally)
    ensures
        spec_surviving_choice(t) == Some(Choice::Heads) ==> t.tails == 0 || t.heads < t.tails,
        spec_surviving_choice(t) == Some(Choice::Tails) ==> t.heads == 0 || t.tails < t.heads,
{
}

} // verus!
