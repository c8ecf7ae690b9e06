use vstd::prelude::*;
use crate::cell::Cell;
use crate::rule::pattern_index;

verus! {

/// The left neighbor of cell `i` of `row`; the border counts as dead.
pub open spec fn left_of(row: Seq<Cell>, i: int) -> Cell {
    if i == 0 {
        Cell::Dead
    } else {
        row[i - 1]
    }
}

/// The right neighbor of cell `i` of `row`; the border counts as dead.
pub open spec fn right_of(row: Seq<Cell>, i: int) -> Cell {
    if i == row.len() - 1 {
        Cell::Dead
    } else {
        row[i + 1]
    }
}

/// The state of cell `i` one generation after `row`, under the rule table
/// `table`.
pub open spec fn successor(table: Seq<Cell>, row: Seq<Cell>, i: int) -> Cell {
    table[pattern_index(left_of(row, i), row[i], right_of(row, i))]
}

/// The generation that follows `row` under the rule table `table`.
pub open spec fn next_generation(table: Seq<Cell>, row: Seq<Cell>) -> Seq<Cell> {
    Seq::new(row.len(), |i: int| successor(table, row, i))
}

/// A generation is as long as the one before it, and each of its cells is
/// the outcome of the neighborhood of that cell.
pub proof fn lemma_next_generation_cell(table: Seq<Cell>, row: Seq<Cell>, i: int)
    requires
        0 <= i < row.len(),
    ensures
        next_generation(table, row).len() == row.len(),
        next_generation(table, row)[i] == table[pattern_index(
            left_of(row, i),
            row[i],
            right_of(row, i),
        )],
        0 <= pattern_index(left_of(row, i), row[i], right_of(row, i)) < 8,
{
}

/// The next state of a cell depends on the cell and on its neighbors inside
/// the row, and on nothing else: two rows of one length that agree there
/// agree on that cell one generation later.
pub proof fn lemma_successor_is_local(table: Seq<Cell>, a: Seq<Cell>, b: Seq<Cell>, i: int)
    requires
        a.len() == b.len(),
        0 <= i < a.len(),
        a[i] == b[i],
        0 < i ==> a[i - 1] == b[i - 1],
        i < a.len() - 1 ==> a[i + 1] == b[i + 1],
    ensures
        next_generation(table, a)[i] == next_generation(table, b)[i],
{
}

/// The first cell of a row has a dead cell for its left neighbor: its next
/// state is the outcome of a dead cell, the cell itself and the second cell
/// (a dead cell, where the row has one cell only).
pub proof fn lemma_left_border(table: Seq<Cell>, row: Seq<Cell>)
    requires
        row.len() >= 1,
    ensures
        row.len() >= 2 ==> next_generation(table, row)[0] == table[pattern_index(
            Cell::Dead,
            row[0],
            row[1],
        )],
        row.len() == 1 ==> next_generation(table, row)[0] == table[pattern_index(
            Cell::Dead,
            row[0],
            Cell::Dead,
        )],
{
}

/// The last cell of a row has a dead cell for its right neighbor: its next
/// state is the outcome of the cell before it (a dead cell, where the row has
/// one cell only), the cell itself and a dead cell.
pub proof fn lemma_right_border(table: Seq<Cell>, row: Seq<Cell>)
    requires
        row.len() >= 1,
    ensures
        row.len() >= 2 ==> next_generation(table, row)[row.len() - 1] == table[pattern_index(
            row[row.len() - 2],
            row[row.len() - 1],
            Cell::Dead,
        )],
        row.len() == 1 ==> next_generation(table, row)[0] == table[pattern_index(
            Cell::Dead,
            row[0],
            Cell::Dead,
        )],
{
}

} // verus!
