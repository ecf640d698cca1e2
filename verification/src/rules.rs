//! The rules of the game, stated over the columns of a board.
//!
//! A board is a sequence of four columns; a column is the sequence of the
//! items dropped into it, from the bottom up. A cell is named by its column
//! and its height:
//!
//! ```text
//! |0,3|1,3|2,3|3,3|
//! |0,2|1,2|2,2|3,2|
//! |0,1|1,1|2,1|3,1|
//! |0,0|1,0|2,0|3,0|
//! +---+---+---+---+
//! ```

use crate::item::{GameState, Item};
use vstd::prelude::*;

verus! {

/// The ten lines that decide a game, each as four cells `(column, height)`:
/// the four columns, then the four rows, then the two diagonals.
pub const WINNING_COORDS_NT: [[(usize, usize); 4]; 10] = [
    [(0, 0), (0, 1), (0, 2), (0, 3)],
    [(1, 0), (1, 1), (1, 2), (1, 3)],
    [(2, 0), (2, 1), (2, 2), (2, 3)],
    [(3, 0), (3, 1), (3, 2), (3, 3)],
    [(0, 0), (1, 0), (2, 0), (3, 0)],
    [(0, 1), (1, 1), (2, 1), (3, 1)],
    [(0, 2), (1, 2), (2, 2), (3, 2)],
    [(0, 3), (1, 3), (2, 3), (3, 3)],
    [(0, 0), (1, 1), (2, 2), (3, 3)],
    [(0, 3), (1, 2), (2, 1), (3, 0)],
];

/// Four columns, none higher than four items.
pub open spec fn bounded(columns: Seq<Seq<Item>>) -> bool {
    &&& columns.len() == 4
    &&& forall|col: int| 0 <= col < 4 ==> (#[trigger] columns[col]).len() <= 4
}

/// The board with nothing on it.
pub open spec fn empty_columns() -> Seq<Seq<Item>> {
    Seq::new(4, |col: int| Seq::<Item>::empty())
}

/// The item at a cell, if the column has grown that high.
pub open spec fn cell(columns: Seq<Seq<Item>>, col: int, height: int) -> Option<Item> {
    if 0 <= col < columns.len() && 0 <= height < columns[col].len() {
        Some(columns[col][height])
    } else {
        None
    }
}

/// The cell number `k` of a line: lines 0 to 3 are the columns, lines 4 to 7
/// the rows from the bottom up, line 8 the rising diagonal and line 9 the
/// falling one.
pub open spec fn line_coord(line: int, k: int) -> (int, int) {
    if line < 4 {
        (line, k)
    } else if line < 8 {
        (k, line - 4)
    } else if line == 8 {
        (k, k)
    } else {
        (k, 3 - k)
    }
}

/// What lies on the cell number `k` of a line.
pub open spec fn line_cell(columns: Seq<Seq<Item>>, line: int, k: int) -> Option<Item> {
    cell(columns, line_coord(line, k).0, line_coord(line, k).1)
}

/// The four cells of a line, in the line's order.
pub open spec fn line_cells(columns: Seq<Seq<Item>>, line: int) -> Seq<Option<Item>> {
    Seq::new(4, |k: int| line_cell(columns, line, k))
}

/// All four cells of the line hold `item`.
pub open spec fn line_filled(columns: Seq<Seq<Item>>, line: int, item: Item) -> bool {
    &&& line_cell(columns, line, 0) == Some(item)
    &&& line_cell(columns, line, 1) == Some(item)
    &&& line_cell(columns, line, 2) == Some(item)
    &&& line_cell(columns, line, 3) == Some(item)
}

/// The item that fills the whole line, if there is one. A line with a cell
/// still empty has no winner.
pub open spec fn line_winner(columns: Seq<Seq<Item>>, line: int) -> Option<Item> {
    if line_filled(columns, line, Item::Cookie) {
        Some(Item::Cookie)
    } else if line_filled(columns, line, Item::Milk) {
        Some(Item::Milk)
    } else {
        None
    }
}

/// The first line from `from` on that some item fills.
pub open spec fn first_won_line(columns: Seq<Seq<Item>>, from: int) -> Option<int>
    decreases 10 - from,
{
    if from >= 10 {
        None
    } else if line_winner(columns, from) is Some {
        Some(from)
    } else {
        first_won_line(columns, from + 1)
    }
}

/// Every column has reached its full height.
pub open spec fn is_full(columns: Seq<Seq<Item>>) -> bool {
    forall|col: int| 0 <= col < 4 ==> (#[trigger] columns[col]).len() >= 4
}

/// The outcome that a board stands for: the winner of the first filled
/// line; with no such line, no winner once the board is full; otherwise
/// the game is open.
pub open spec fn outcome(columns: Seq<Seq<Item>>) -> GameState {
    match first_won_line(columns, 0) {
        Some(line) => GameState::Wins(line_winner(columns, line).unwrap()),
        None => if is_full(columns) {
            GameState::NoWinner
        } else {
            GameState::Normal
        },
    }
}

/// An item can be dropped into the column: the game is open, the column
/// exists and has room.
pub open spec fn can_place(columns: Seq<Seq<Item>>, state: GameState, col: int) -> bool {
    &&& state == GameState::Normal
    &&& 0 <= col < 4
    &&& columns[col].len() < 4
}

/// The board after `item` has come to lie on top of a column.
pub open spec fn with_item_on_top(columns: Seq<Seq<Item>>, col: int, item: Item) -> Seq<
    Seq<Item>,
> {
    columns.update(col, columns[col].push(item))
}

/// One placement as a step of the game: the board and outcome that follow
/// from a board, its outcome and a move. A move that cannot be made leaves
/// both as they were.
pub open spec fn after_move(
    columns: Seq<Seq<Item>>,
    state: GameState,
    col: int,
    item: Item,
) -> (Seq<Seq<Item>>, GameState) {
    if can_place(columns, state, col) {
        let next = with_item_on_top(columns, col, item);
        (next, outcome(next))
    } else {
        (columns, state)
    }
}

/// The board and outcome after a sequence of moves `(column, item)`, made
/// in order.
pub open spec fn after_moves(
    columns: Seq<Seq<Item>>,
    state: GameState,
    moves: Seq<(int, Item)>,
) -> (Seq<Seq<Item>>, GameState)
    decreases moves.len(),
{
    if moves.len() == 0 {
        (columns, state)
    } else {
        let (next, next_state) = after_move(columns, state, moves[0].0, moves[0].1);
        after_moves(next, next_state, moves.skip(1))
    }
}

/// The table of lines holds, line by line, the cells that `line_coord`
/// names.
pub proof fn lemma_table_holds_the_lines(line: int, k: int)
    requires
        0 <= line < 10,
        0 <= k < 4,
    ensures
        WINNING_COORDS_NT[line][k].0 == line_coord(line, k).0,
        WINNING_COORDS_NT[line][k].1 == line_coord(line, k).1,
{
}

/// `first_won_line` finds a filled line, and none lies before it; where it
/// finds none, no line from `from` on is filled.
pub proof fn lemma_first_won_line(columns: Seq<Seq<Item>>, from: int)
    requires
        0 <= from <= 10,
    ensures
        match first_won_line(columns, from) {
            Some(line) => {
                &&& from <= line < 10
                &&& line_winner(columns, line) is Some
                &&& forall|earlier: int|
                    from <= earlier < line ==> line_winner(columns, earlier) is None
            },
            None => forall|line: int| from <= line < 10 ==> line_winner(columns, line) is None,
        },
    decreases 10 - from,
{
    if from < 10 && line_winner(columns, from) is None {
        lemma_first_won_line(columns, from + 1);
    }
}

/// A game is won exactly when some line is filled by one item, and the
/// winner is an item that fills a line: a win is declared neither before a
/// line is complete nor withheld once one is.
pub proof fn lemma_wins_iff_line_filled(columns: Seq<Seq<Item>>)
    ensures
        outcome(columns) is Wins <==> exists|line: int, item: Item|
            0 <= line < 10 && line_filled(columns, line, item),
        forall|item: Item|
            outcome(columns) == GameState::Wins(item) ==> exists|line: int|
                0 <= line < 10 && line_filled(columns, line, item),
{
    lemma_first_won_line(columns, 0);
    if outcome(columns) is Wins {
        let line = first_won_line(columns, 0).unwrap();
        let item = line_winner(columns, line).unwrap();
        assert(0 <= line < 10 && line_filled(columns, line, item));
    }
    if exists|line: int, item: Item| 0 <= line < 10 && line_filled(columns, line, item) {
        let (line, item) = choose|line: int, item: Item|
            0 <= line < 10 && line_filled(columns, line, item);
        assert(line_winner(columns, line) is Some);
    }
}

/// A filled line decides the game for its item, unless a line earlier in
/// the order is filled too: then that one decides.
pub proof fn lemma_filled_line_wins(columns: Seq<Seq<Item>>, line: int, item: Item)
    requires
        0 <= line < 10,
        line_filled(columns, line, item),
    ensures
        outcome(columns) is Wins,
        (forall|earlier: int| 0 <= earlier < line ==> line_winner(columns, earlier) is None)
            ==> outcome(columns) == GameState::Wins(item),
{
    lemma_first_won_line(columns, 0);
    assert(line_winner(columns, line) == Some(item));
}

/// A full board on which no line is filled ends the game without a winner.
pub proof fn lemma_full_board_without_line(columns: Seq<Seq<Item>>)
    requires
        is_full(columns),
        forall|line: int, item: Item| 0 <= line < 10 ==> !line_filled(columns, line, item),
    ensures
        outcome(columns) == GameState::NoWinner,
{
    lemma_first_won_line(columns, 0);
    if first_won_line(columns, 0) is Some {
        let line = first_won_line(columns, 0).unwrap();
        assert(line_filled(columns, line, line_winner(columns, line).unwrap()));
    }
}

/// The game is open exactly when no line is filled and some column has room.
pub proof fn lemma_open_iff(columns: Seq<Seq<Item>>)
    ensures
        outcome(columns) == GameState::Normal <==> {
            &&& !is_full(columns)
            &&& forall|line: int, item: Item|
                0 <= line < 10 ==> !line_filled(columns, line, item)
        },
{
    lemma_first_won_line(columns, 0);
    lemma_wins_iff_line_filled(columns);
    if first_won_line(columns, 0) is None {
        assert forall|line: int, item: Item| 0 <= line < 10 implies !line_filled(
            columns,
            line,
            item,
        ) by {
            assert(line_winner(columns, line) is None);
        }
    }
}

/// The empty board stands for an open game.
pub proof fn lemma_empty_is_open()
    ensures
        bounded(empty_columns()),
        outcome(empty_columns()) == GameState::Normal,
{
    let columns = empty_columns();
    assert(columns[0].len() == 0);
    assert(!is_full(columns));
    assert forall|line: int, item: Item| 0 <= line < 10 implies !line_filled(
        columns,
        line,
        item,
    ) by {
        assert(line_cell(columns, line, 0) is None);
    }
    lemma_open_iff(columns);
}

/// In an open game, the item that completes a line wins: whatever line the
/// new board shows as filled holds the cell just taken, and so the item
/// just placed.
pub proof fn lemma_completing_item_wins(
    columns: Seq<Seq<Item>>,
    col: int,
    item: Item,
    line: int,
    filler: Item,
)
    requires
        bounded(columns),
        outcome(columns) == GameState::Normal,
        can_place(columns, GameState::Normal, col),
        0 <= line < 10,
        line_filled(with_item_on_top(columns, col, item), line, filler),
    ensures
        filler == item,
        outcome(with_item_on_top(columns, col, item)) == GameState::Wins(item),
{
    let next = with_item_on_top(columns, col, item);
    lemma_open_iff(columns);
    lemma_new_line_holds_item(columns, col, item, line, filler);
    lemma_first_won_line(next, 0);
    let first = first_won_line(next, 0).unwrap();
    let winner = line_winner(next, first).unwrap();
    assert(line_winner(next, line) is Some);
    assert(line_filled(next, first, winner));
    lemma_new_line_holds_item(columns, col, item, first, winner);
}

/// A placement in an open game leaves the game open, or ends it with no
/// winner, or wins it for the item placed: it never wins it for the other.
pub proof fn lemma_only_mover_wins(columns: Seq<Seq<Item>>, col: int, item: Item)
    requires
        bounded(columns),
        outcome(columns) == GameState::Normal,
        can_place(columns, GameState::Normal, col),
    ensures
        outcome(with_item_on_top(columns, col, item)) is Wins ==> outcome(
            with_item_on_top(columns, col, item),
        ) == GameState::Wins(item),
{
    let next = with_item_on_top(columns, col, item);
    if outcome(next) is Wins {
        lemma_first_won_line(next, 0);
        let first = first_won_line(next, 0).unwrap();
        let winner = line_winner(next, first).unwrap();
        assert(line_filled(next, first, winner));
        lemma_completing_item_wins(columns, col, item, first, winner);
    }
}

/// Once a game is over, no sequence of moves changes the board or the
/// outcome.
pub proof fn lemma_terminal_is_final(
    columns: Seq<Seq<Item>>,
    state: GameState,
    moves: Seq<(int, Item)>,
)
    requires
        state.is_terminal(),
    ensures
        after_moves(columns, state, moves) == (columns, state),
    decreases moves.len(),
{
    if moves.len() > 0 {
        lemma_terminal_is_final(columns, state, moves.skip(1));
    }
}

/// Moves keep a board within its bounds, and its outcome the one that the
/// board stands for.
pub proof fn lemma_moves_keep_rules(
    columns: Seq<Seq<Item>>,
    state: GameState,
    moves: Seq<(int, Item)>,
)
    requires
        bounded(columns),
        state == outcome(columns),
    ensures
        bounded(after_moves(columns, state, moves).0),
        after_moves(columns, state, moves).1 == outcome(after_moves(columns, state, moves).0),
    decreases moves.len(),
{
    if moves.len() > 0 {
        let (next, next_state) = after_move(columns, state, moves[0].0, moves[0].1);
        lemma_moves_keep_rules(next, next_state, moves.skip(1));
    }
}

/// A line that is filled after a placement in an open game, where no line
/// was filled before, runs through the cell just taken and is filled with
/// the item placed there.
proof fn lemma_new_line_holds_item(
    columns: Seq<Seq<Item>>,
    col: int,
    item: Item,
    line: int,
    filler: Item,
)
    requires
        bounded(columns),
        0 <= col < 4,
        columns[col].len() < 4,
        0 <= line < 10,
        !line_filled(columns, line, filler),
        line_filled(with_item_on_top(columns, col, item), line, filler),
    ensures
        filler == item,
{
    let next = with_item_on_top(columns, col, item);
    let height = columns[col].len() as int;
    assert forall|c: int, h: int| 0 <= c < 4 && 0 <= h < 4 && !(c == col && h == height) implies cell(
        next,
        c,
        h,
    ) == cell(columns, c, h) by {}
    assert(cell(next, col, height) == Some(item));
}

} // verus!
