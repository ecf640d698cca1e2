//! The two kinds of item and the outcome of a game.

use vstd::prelude::*;

verus! {

/// One of the two kinds of item that can be dropped onto the board.
#[derive(Debug, Clone, Copy, PartialEq, Eq, Structural)]
pub enum Item {
    Cookie,
    Milk,
}

/// The outcome of a game: still open, won by one kind of item, or ended
/// with a full board and no winner.
#[derive(Debug, Clone, Copy, PartialEq, Eq, Structural)]
pub enum GameState {
    Normal,
    Wins(Item),
    NoWinner,
}

impl Item {
    /// The glyph that stands for this item in a rendered board.
    pub open spec fn glyph(self) -> char {
        match self {
            Item::Cookie => '🍪',
            Item::Milk => '🥛',
        }
    }

    /// The item that a drawn boolean stands for.
    pub open spec fn of_draw(draw: bool) -> Item {
        if draw {
            Item::Cookie
        } else {
            Item::Milk
        }
    }

    /// Turns a drawn boolean into an item: a cookie for `true`, milk for
    /// `false`.
    pub fn from_draw(draw: bool) -> (item: Item)
        ensures
            item == Item::of_draw(draw),
    {
        if draw {
            Item::Cookie
        } else {
            Item::Milk
        }
    }

    /// The glyph of this item.
    pub fn as_char(&self) -> (c: char)
        ensures
            c == self.glyph(),
    {
        match self {
            Item::Cookie => '🍪',
            Item::Milk => '🥛',
        }
    }
}

impl GameState {
    /// Whether the game is over: no further item can be placed.
    pub open spec fn is_terminal(self) -> bool {
        self != GameState::Normal
    }

    /// The status line of a rendered board: nothing while the game is open,
    /// otherwise one line of text that ends in a line break.
    pub open spec fn status_line(self) -> Seq<char> {
        match self {
            GameState::Normal => Seq::empty(),
            GameState::Wins(item) => seq![item.glyph()] + " wins!\n"@,
            GameState::NoWinner => "No winner.\n"@,
        }
    }

    /// The status line of this outcome.
    pub fn to_str(&self) -> (s: &'static str)
        ensures
            s@ == self.status_line(),
    {
        proof {
            reveal_strlit("");
            reveal_strlit(" wins!\n");
            reveal_strlit("🍪 wins!\n");
            reveal_strlit("🥛 wins!\n");
        }
        match self {
            GameState::Normal => {
                assert(""@ =~= Seq::<char>::empty());
                ""
            },
            GameState::Wins(Item::Cookie) => {
                assert("🍪 wins!\n"@ =~= seq!['🍪'] + " wins!\n"@);
                "🍪 wins!\n"
            },
            GameState::Wins(Item::Milk) => {
                assert("🥛 wins!\n"@ =~= seq!['🥛'] + " wins!\n"@);
                "🥛 wins!\n"
            },
            GameState::NoWinner => "No winner.\n",
        }
    }
}

impl Default for GameState {
    /// A game starts open.
    fn default() -> (state: GameState)
        ensures
            state == GameState::Normal,
    {
        GameState::Normal
    }
}

} // verus!
