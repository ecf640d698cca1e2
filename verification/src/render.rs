//! The text picture of a board.

use crate::item::{GameState, Item};
use crate::rules::cell;
use vstd::prelude::*;

verus! {

/// The glyph of the frame round the board.
pub const WALL: char = '⬜';

/// The glyph of a cell that holds no item.
pub const EMPTY: char = '⬛';

/// `String::push` appends the character to the end of the string.
pub assume_specification[ String::push ](s: &mut String, ch: char)
    ensures
        final(s)@ == old(s)@.push(ch),
;

/// The glyph of a cell.
pub open spec fn cell_glyph(content: Option<Item>) -> char {
    match content {
        Some(item) => item.glyph(),
        None => EMPTY,
    }
}

/// The line of frame above and below the cells: six wall glyphs and a
/// line break.
pub open spec fn frame_line() -> Seq<char> {
    seq![WALL, WALL, WALL, WALL, WALL, WALL, '\n']
}

/// The line that shows the cells at one height: a wall glyph, the four
/// columns in their order, a wall glyph and a line break.
pub open spec fn row_line(columns: Seq<Seq<Item>>, height: int) -> Seq<char> {
    seq![
        WALL,
        cell_glyph(cell(columns, 0, height)),
        cell_glyph(cell(columns, 1, height)),
        cell_glyph(cell(columns, 2, height)),
        cell_glyph(cell(columns, 3, height)),
        WALL,
        '\n',
    ]
}

/// The picture of a board: the frame, the four rows from the top one
/// down, the frame again, and the status line of the outcome.
pub open spec fn picture(columns: Seq<Seq<Item>>, state: GameState) -> Seq<char> {
    frame_line() + row_line(columns, 3) + row_line(columns, 2) + row_line(columns, 1) + row_line(
        columns,
        0,
    ) + frame_line() + state.status_line()
}

/// A picture has six lines of seven characters, and then the status line.
pub proof fn lemma_picture_len(columns: Seq<Seq<Item>>, state: GameState)
    ensures
        picture(columns, state).len() == 42 + state.status_line().len(),
{
}

} // verus!
