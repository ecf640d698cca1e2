//! The session: one board, its outcome and the generator, changed together.

use crate::equal::{all_equal_value, lemma_all_equal_of_four};
use crate::generator::{lemma_same_start_same_draws, Generator};
use crate::item::{GameState, Item};
use crate::render::{cell_glyph, frame_line, picture, row_line, EMPTY, WALL};
use crate::rules::{
    after_move, bounded, can_place, cell, empty_columns, first_won_line, is_full,
    lemma_empty_is_open, line_cells, line_filled, line_winner, outcome, WINNING_COORDS_NT,
};
use vstd::prelude::*;

verus! {

/// The state of a session: the four columns of the board, the outcome of
/// the game on it, and the generator that board fills draw from.
pub struct AppState {
    slots: [Vec<Item>; 4],
    game_state: GameState,
    rng: Generator,
}

/// The board that sixteen draws fill: the draws are laid out like text, the
/// first four across the top row, the last four across the bottom row.
pub open spec fn filled_columns(draws: Seq<bool>) -> Seq<Seq<Item>>
    recommends
        draws.len() == 16,
{
    Seq::new(4, |col: int| Seq::new(4, |height: int| Item::of_draw(draws[(3 - height) * 4 + col])))
}

/// The rows of a picture from the top one down to the one at `height`.
spec fn rows_down_to(columns: Seq<Seq<Item>>, height: int) -> Seq<char>
    decreases 4 - height,
{
    if height >= 4 {
        Seq::empty()
    } else {
        rows_down_to(columns, height + 1) + row_line(columns, height)
    }
}

/// A board filled from draws has four items in every column, so the game on
/// it is over: some line decides it, or it has no winner.
pub proof fn lemma_filled_board_is_decided(draws: Seq<bool>)
    ensures
        bounded(filled_columns(draws)),
        is_full(filled_columns(draws)),
        outcome(filled_columns(draws)).is_terminal(),
{
    let columns = filled_columns(draws);
    assert forall|col: int| 0 <= col < 4 implies (#[trigger] columns[col]).len() == 4 by {}
}

/// Two sessions whose generators stand at the start of the stream, as
/// after a new session or a reset of the generator, fill their next boards
/// alike.
pub proof fn lemma_same_start_same_board(a: AppState, b: AppState)
    requires
        a.wf(),
        b.wf(),
        a.generator().drawn() == 0,
        b.generator().drawn() == 0,
    ensures
        filled_columns(a.generator().next_draws(16)) == filled_columns(
            b.generator().next_draws(16),
        ),
{
    lemma_same_start_same_draws(a.generator(), b.generator(), 16);
}

/// In a session no column is ever higher than four items.
pub proof fn lemma_heights_bounded(state: AppState, col: int)
    requires
        state.wf(),
        0 <= col < 4,
    ensures
        0 <= state.columns()[col].len() <= 4,
{
}

impl AppState {
    /// The columns of the board, each from the bottom up.
    pub closed spec fn columns(&self) -> Seq<Seq<Item>> {
        Seq::new(4, |col: int| self.slots[col]@)
    }

    /// The outcome that the session holds.
    pub closed spec fn game_state(&self) -> GameState {
        self.game_state
    }

    /// The generator of the session.
    pub closed spec fn generator(&self) -> Generator {
        self.rng
    }

    /// What holds of a session at all times: no column is higher than four,
    /// the outcome is the one that the board stands for, and the generator
    /// stands in its stream.
    pub open spec fn wf(&self) -> bool {
        &&& bounded(self.columns())
        &&& self.game_state() == outcome(self.columns())
        &&& self.generator().wf()
    }

    /// A session with an empty board, an open game and a generator at the
    /// start of its stream.
    pub fn new() -> (state: AppState)
        ensures
            state.wf(),
            state.columns() == empty_columns(),
            state.game_state() == GameState::Normal,
            state.generator().drawn() == 0,
    {
        let state = AppState {
            slots: [Vec::new(), Vec::new(), Vec::new(), Vec::new()],
            game_state: GameState::Normal,
            rng: Generator::new(),
        };
        proof {
            assert(state.columns() =~= empty_columns());
            lemma_empty_is_open();
        }
        state
    }

    /// The picture of the board and the outcome, as text.
    pub fn get_display_string(&self) -> (text: String)
        ensures
            text@ == picture(self.columns(), self.game_state()),
    {
        let ghost columns = self.columns();
        let mut board_string = String::new();
        proof {
            reveal_strlit("⬜⬜⬜⬜⬜⬜\n");
        }
        board_string.append("⬜⬜⬜⬜⬜⬜\n");
        assert(board_string@ =~= frame_line() + rows_down_to(columns, 4));
        let mut i: usize = 4;
        while i > 0
            invariant
                i <= 4,
                columns == self.columns(),
                board_string@ == frame_line() + rows_down_to(columns, i as int),
            decreases i,
        {
            i -= 1;
            let ghost above = board_string@;
            board_string.push(WALL);
            for j in 0..4
                invariant
                    i < 4,
                    columns == self.columns(),
                    board_string@ == above + seq![WALL] + Seq::new(
                        j as nat,
                        |col: int| cell_glyph(cell(columns, col, i as int)),
                    ),
            {
                let glyph = if i < self.slots[j].len() {
                    self.slots[j][i].as_char()
                } else {
                    EMPTY
                };
                assert(glyph == cell_glyph(cell(columns, j as int, i as int)));
                board_string.push(glyph);
                assert(board_string@ =~= above + seq![WALL] + Seq::new(
                    (j + 1) as nat,
                    |col: int| cell_glyph(cell(columns, col, i as int)),
                ));
            }
            board_string.push(WALL);
            board_string.push('\n');
            assert(board_string@ =~= above + row_line(columns, i as int));
            assert(board_string@ =~= frame_line() + rows_down_to(columns, i as int));
        }
        board_string.append("⬜⬜⬜⬜⬜⬜\n");
        board_string.append(self.game_state.to_str());
        proof {
            reveal_with_fuel(rows_down_to, 5);
            assert(board_string@ =~= picture(columns, self.game_state()));
        }
        board_string
    }

    /// Empties the board and opens the game again. The generator stays
    /// where it is.
    pub fn reset(&mut self)
        ensures
            final(self).columns() == empty_columns(),
            final(self).game_state() == GameState::Normal,
            final(self).generator() == old(self).generator(),
            old(self).generator().wf() ==> final(self).wf(),
    {
        for i in 0..4
            invariant
                self.rng == old(self).rng,
                forall|col: int| 0 <= col < i ==> (#[trigger] self.slots[col])@ == Seq::<Item>::empty(),
        {
            self.slots[i].clear();
        }
        self.game_state = GameState::Normal;
        proof {
            assert(self.columns() =~= empty_columns());
            lemma_empty_is_open();
        }
    }

    /// Puts the generator back to the start of its stream. The board and
    /// the outcome stay as they are.
    pub fn reset_rng(&mut self)
        ensures
            final(self).columns() == old(self).columns(),
            final(self).game_state() == old(self).game_state(),
            final(self).generator().wf(),
            final(self).generator().drawn() == 0,
            old(self).wf() ==> final(self).wf(),
    {
        self.rng.reset();
    }

    /// Drops `item` into the column at `position`, counted from zero, and
    /// derives the outcome anew. Nothing changes, and the answer is `false`,
    /// where there is no such column, the column is full or the game is over.
    pub fn place(&mut self, item: Item, position: u16) -> (placed: bool)
        ensures
            placed == can_place(old(self).columns(), old(self).game_state(), position as int),
            (final(self).columns(), final(self).game_state()) == after_move(
                old(self).columns(),
                old(self).game_state(),
                position as int,
                item,
            ),
            old(self).game_state().is_terminal() ==> !placed && final(self).columns() == old(
                self,
            ).columns() && final(self).game_state() == old(self).game_state(),
            final(self).generator() == old(self).generator(),
            old(self).wf() ==> final(self).wf(),
    {
        if position >= 4 || !matches!(self.game_state, GameState::Normal) {
            return false;
        }
        let col = position as usize;
        if self.slots[col].len() >= 4 {
            return false;
        }
        self.slots[col].push(item);
        assert(self.columns() =~= old(self).columns().update(
            col as int,
            old(self).columns()[col as int].push(item),
        ));
        self.update_game_state();
        true
    }

    /// The content of a cell.
    fn get(&self, col: usize, height: usize) -> (content: Option<Item>)
        requires
            col < 4,
        ensures
            content == cell(self.columns(), col as int, height as int),
    {
        if height < self.slots[col].len() {
            Some(self.slots[col][height])
        } else {
            None
        }
    }

    /// Sets the outcome to the one that the board stands for: the lines are
    /// searched in their order for one that a single item fills, and the
    /// first that is found decides.
    fn update_game_state(&mut self)
        ensures
            final(self).columns() == old(self).columns(),
            final(self).generator() == old(self).generator(),
            final(self).game_state() == outcome(old(self).columns()),
    {
        let ghost columns = self.columns();
        let mut line: usize = 0;
        while line < 10
            invariant
                line <= 10,
                *self == *old(self),
                columns == self.columns(),
                first_won_line(columns, 0) == first_won_line(columns, line as int),
            decreases 10 - line,
        {
            let coords = WINNING_COORDS_NT[line];
            let cells = [
                self.get(coords[0].0, coords[0].1),
                self.get(coords[1].0, coords[1].1),
                self.get(coords[2].0, coords[2].1),
                self.get(coords[3].0, coords[3].1),
            ];
            proof {
                assert(cells@ =~= line_cells(columns, line as int));
                lemma_all_equal_of_four(cells@);
            }
            if let Ok(Some(item)) = all_equal_value(cells.as_slice()) {
                assert(line_filled(columns, line as int, item));
                assert(line_winner(columns, line as int) == Some(item));
                self.game_state = GameState::Wins(item);
                return;
            }
            assert(line_winner(columns, line as int) is None);
            line += 1;
        }
        let mut full = true;
        for col in 0..4
            invariant
                columns == self.columns(),
                *self == *old(self),
                full <==> forall|c: int| 0 <= c < col ==> (#[trigger] columns[c]).len() >= 4,
        {
            assert(columns[col as int] == self.slots[col as int]@);
            if self.slots[col].len() < 4 {
                full = false;
            }
        }
        assert(full == is_full(columns));
        if full {
            self.game_state = GameState::NoWinner;
            return;
        }
        self.game_state = GameState::Normal;
    }

    /// Fills the board from sixteen draws. The board is emptied first; then,
    /// in four rounds, each column in turn takes the item of the next draw
    /// at its bottom, under what it holds already; then the outcome is
    /// derived. The generator is not consulted.
    pub fn fill_from(&mut self, draws: &[bool; 16])
        ensures
            final(self).columns() == filled_columns(draws@),
            final(self).game_state() == outcome(final(self).columns()),
            final(self).generator() == old(self).generator(),
            old(self).generator().wf() ==> final(self).wf(),
    {
        self.reset();
        assert forall|c: int| 0 <= c < 4 implies (#[trigger] self.slots[c])@.len() == 0 by {
            assert(self.columns()[c] == self.slots[c]@);
        }
        for round in 0..4
            invariant
                self.rng == old(self).rng,
                forall|c: int| 0 <= c < 4 ==> (#[trigger] self.slots[c])@.len() == round,
                forall|c: int, h: int|
                    0 <= c < 4 && 0 <= h < round ==> (#[trigger] self.slots[c]@[h])
                        == Item::of_draw(draws@[(round as int - 1 - h) * 4 + c]),
        {
            for i in 0..4
                invariant
                    0 <= round < 4,
                    self.rng == old(self).rng,
                    forall|c: int| 0 <= c < i ==> (#[trigger] self.slots[c])@.len() == round + 1,
                    forall|c: int| i <= c < 4 ==> (#[trigger] self.slots[c])@.len() == round,
                    forall|c: int, h: int|
                        0 <= c < i && 0 <= h < round + 1 ==> (#[trigger] self.slots[c]@[h])
                            == Item::of_draw(draws@[(round as int - h) * 4 + c]),
                    forall|c: int, h: int|
                        i <= c < 4 && 0 <= h < round ==> (#[trigger] self.slots[c]@[h])
                            == Item::of_draw(draws@[(round as int - 1 - h) * 4 + c]),
            {
                self.slots[i].insert(0, Item::from_draw(draws[round * 4 + i]));
            }
        }
        assert(self.columns() =~~= filled_columns(draws@));
        self.update_game_state();
    }

    /// Fills the board at random: sixteen booleans are drawn from the
    /// generator, which is not reset for it, and the board is filled from
    /// them.
    pub fn random_board(&mut self)
        ensures
            final(self).columns() == filled_columns(old(self).generator().next_draws(16)),
            final(self).game_state() == outcome(final(self).columns()),
            final(self).generator().drawn() == old(self).generator().drawn() + 16,
            forall|k: nat|
                final(self).generator().upcoming(k) == old(self).generator().upcoming(k + 16),
            old(self).generator().wf() ==> final(self).wf(),
    {
        let mut draws = [false; 16];
        for n in 0..16
            invariant
                self.slots == old(self).slots,
                self.game_state == old(self).game_state,
                self.rng.drawn() == old(self).rng.drawn() + n,
                forall|k: nat| self.rng.upcoming(k) == old(self).rng.upcoming(k + n as nat),
                forall|k: int| 0 <= k < n ==> draws@[k] == old(self).rng.upcoming(k as nat),
                old(self).rng.wf() ==> self.rng.wf(),
        {
            let draw = self.rng.draw_bool();
            draws[n] = draw;
        }
        assert(draws@ =~= old(self).generator().next_draws(16));
        self.fill_from(&draws);
    }
}

} // verus!
