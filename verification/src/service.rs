//! The four operations that a session offers to the layer that takes
//! requests: showing the board, starting over, placing an item and filling
//! the board at random. Each answers with the picture of the board as the
//! operation left it.

use crate::item::{GameState, Item};
use crate::render::picture;
use crate::rules::{after_move, can_place, empty_columns, lemma_empty_is_open, outcome};
use crate::session::{filled_columns, AppState};
use vstd::prelude::*;

verus! {

/// Why a request was turned away before it reached the session.
#[derive(Debug, Clone, Copy, PartialEq, Eq, Structural)]
pub enum RequestError {
    /// The position does not name one of the columns 1 to 4.
    PositionOutOfRange,
}

/// A position as requests give it names a column: the columns are counted
/// from 1 to 4.
pub open spec fn names_column(position: u16) -> bool {
    1 <= position <= 4
}

/// The picture of the session as it stands.
pub fn board(state: &AppState) -> (text: String)
    ensures
        text@ == picture(state.columns(), state.game_state()),
{
    state.get_display_string()
}

/// Puts the session back to where every session starts: the board empty,
/// the game open, the generator at the start of its stream. Answers with
/// the picture of the empty board.
pub fn reset(state: &mut AppState) -> (text: String)
    ensures
        final(state).wf(),
        final(state).columns() == empty_columns(),
        final(state).game_state() == GameState::Normal,
        final(state).generator().drawn() == 0,
        text@ == picture(empty_columns(), GameState::Normal),
{
    state.reset();
    state.reset_rng();
    proof {
        lemma_empty_is_open();
    }
    state.get_display_string()
}

/// Places `item` in the column that `position` names, counted from 1.
///
/// A position outside 1 to 4 is an error, and the session is not touched.
/// Otherwise the answer is the picture of the board after the request,
/// together with whether the item was placed: it is not, and nothing
/// changes, where the column is full or the game is over.
pub fn place(state: &mut AppState, item: Item, position: u16) -> (reply: Result<
    (bool, String),
    RequestError,
>)
    ensures
        reply is Ok <==> names_column(position),
        !names_column(position) ==> reply == Err::<(bool, String), RequestError>(
            RequestError::PositionOutOfRange,
        ) && *final(state) == *old(state),
        names_column(position) ==> {
            &&& reply->Ok_0.0 == can_place(
                old(state).columns(),
                old(state).game_state(),
                position - 1,
            )
            &&& (final(state).columns(), final(state).game_state()) == after_move(
                old(state).columns(),
                old(state).game_state(),
                position - 1,
                item,
            )
            &&& reply->Ok_0.1@ == picture(final(state).columns(), final(state).game_state())
        },
        final(state).generator() == old(state).generator(),
        old(state).wf() ==> final(state).wf(),
{
    if position < 1 || position > 4 {
        return Err(RequestError::PositionOutOfRange);
    }
    let placed = state.place(item, position - 1);
    Ok((placed, state.get_display_string()))
}

/// Fills the board from the next sixteen draws of the generator, which is
/// not reset for it, and answers with the picture of the filled board.
pub fn random_board(state: &mut AppState) -> (text: String)
    ensures
        final(state).columns() == filled_columns(old(state).generator().next_draws(16)),
        final(state).game_state() == outcome(final(state).columns()),
        final(state).generator().drawn() == old(state).generator().drawn() + 16,
        forall|k: nat|
            final(state).generator().upcoming(k) == old(state).generator().upcoming(k + 16),
        old(state).generator().wf() ==> final(state).wf(),
        text@ == picture(final(state).columns(), final(state).game_state()),
{
    state.random_board();
    state.get_display_string()
}

} // verus!
