//! Arena lifecycle state machine.
//!
//! Legal transitions:
//! ```text
//! Open     → Active      (start_round: a round starts)
//! Open     → Cancelled   (cancel_arena before play)
//! Active   → Open        (resolve_round: more than one survivor remains)
//! Active   → Finished    (resolve_round: at most one survivor remains)
//! Active   → Cancelled   (forced cancellation mid-game)
//! Finished → Settled     (claim: prize distributed to the winner)
//! ```
//! `Cancelled` and `Settled` are terminal. `start_round` also starts a round
//! in a `Finished` arena, a change this table does not list.

use vstd::prelude::*;

use super::types::{ArenaError, GameState};

verus! {

/// The legal direct transitions of the arena lifecycle.
pub open spec fn spec_can_transition(from: GameState, to: GameState) -> bool {
    ||| from == GameState::Open && to == GameState::Active
    ||| from == GameState::Open && to == GameState::Cancelled
    ||| from == GameState::Active && to == GameState::Open
    ||| from == GameState::Active && to == GameState::Finished
    ||| from == GameState::Active && to == GameState::Cancelled
    ||| from == GameState::Finished && to == GameState::Settled
}

/// Returns `true` if a direct transition from `from` to `to` is allowed.
pub fn can_transition(from: &GameState, to: &GameState) -> (b: bool)
    ensures
        b == spec_can_transition(*from, *to),
{
    match (from, to) {
        (GameState::Open, GameState::Active) => true,
        (GameState::Open, GameState::Cancelled) => true,
        (GameState::Active, GameState::Open) => true,
        (GameState::Active, GameState::Finished) => true,
        (GameState::Active, GameState::Cancelled) => true,
        (GameState::Finished, GameState::Settled) => true,
        _ => false,
    }
}

/// Guard requiring the arena to currently be in `expected`, returning `err`
/// otherwise.
pub fn ensure_state(current: &GameState, expected: &GameState, err: ArenaError) -> (r: Result<
    (),
    ArenaError,
>)
    ensures
        r == (if *current == *expected {
            Ok::<(), ArenaError>(())
        } else {
            Err(err)
        }),
{
    if *current == *expected {
        Ok(())
    } else {
        Err(err)
    }
}

/// Guard requiring a `from → to` transition to be legal before it is applied.
pub fn ensure_transition(from: &GameState, to: &GameState, err: ArenaError) -> (r: Result<
    (),
    ArenaError,
>)
    ensures
        r == (if spec_can_transition(*from, *to) {
            Ok::<(), ArenaError>(())
        } else {
            Err(err)
        }),
{
    if can_transition(from, to) {
        Ok(())
    } else {
        Err(err)
    }
}

/// `Cancelled` and `Settled` are terminal: no transition leaves them, and no
/// state moves to itself.
pub proof fn lemma_terminal_states_have_no_exit(to: GameState)
    ensures
        !spec_can_transition(GameState::Cancelled, to),
        !spec_can_transition(GameState::Settled, to),
        !spec_can_transition(to, to),
{
}

} // verus!
