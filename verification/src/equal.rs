//! Whether the cells of a line all hold the same thing.

use crate::item::Item;
use itertools::Itertools;
use vstd::prelude::*;

verus! {

/// The first position from `from` on whose cell differs from the first cell.
pub open spec fn first_unequal(cells: Seq<Option<Item>>, from: int) -> Option<int>
    recommends
        0 <= from,
    decreases cells.len() - from,
{
    if from >= cells.len() {
        None
    } else if cells[from] != cells[0] {
        Some(from)
    } else {
        first_unequal(cells, from + 1)
    }
}

/// What a search for the one value of all cells comes to: the value where
/// every cell equals the first; no answer at all where there are no cells;
/// otherwise the first cell together with the first one that differs from it.
pub open spec fn all_equal_value_of(cells: Seq<Option<Item>>) -> Result<
    Option<Item>,
    Option<(Option<Item>, Option<Item>)>,
> {
    if cells.len() == 0 {
        Err(None)
    } else {
        match first_unequal(cells, 1) {
            Some(at) => Err(Some((cells[0], cells[at]))),
            None => Ok(cells[0]),
        }
    }
}

/// Calls `Itertools::all_equal_value` on the cells in their order. As the
/// crate documents it, the call gives the common value where all elements
/// are equal, `Err(None)` for no elements, and otherwise the first element
/// and the first that is not equal to it.
#[verifier::external_body]
pub(crate) fn all_equal_value(cells: &[Option<Item>]) -> (found: Result<
    Option<Item>,
    Option<(Option<Item>, Option<Item>)>,
>)
    ensures
        found == all_equal_value_of(cells@),
{
    cells.iter().copied().all_equal_value()
}

/// Four cells have one common value exactly when each equals the first.
pub proof fn lemma_all_equal_of_four(cells: Seq<Option<Item>>)
    requires
        cells.len() == 4,
    ensures
        all_equal_value_of(cells) is Ok <==> cells[1] == cells[0] && cells[2] == cells[0]
            && cells[3] == cells[0],
        all_equal_value_of(cells) is Ok ==> all_equal_value_of(cells) == Ok::<
            Option<Item>,
            Option<(Option<Item>, Option<Item>)>,
        >(cells[0]),
{
    reveal_with_fuel(first_unequal, 5);
}

} // verus!
