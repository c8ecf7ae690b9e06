use vstd::prelude::*;
use crate::cell::Cell;
use crate::generation::{left_of, next_generation, right_of, successor};
use crate::rule::{pattern_index, rule_outcome, rule_table, table_entry, RESERVED};
use vstd::slice::slice_subrange;

verus! {

/// Rule number that a new line starts with.
pub const DEFAULT_RULE: u8 = 30;

/// Number of cells that a new line simulates.
pub const DEFAULT_LENGTH: usize = 100;

/// What a [`Line`] stands for: a rule table and a row of cells.
#[verifier::ext_equal]
pub struct LineView {
    /// The rule table: eight cells, entry `i` the outcome of pattern `7 - i`.
    pub table: Seq<Cell>,
    /// The simulated cells, from left to right.
    pub row: Seq<Cell>,
}

impl LineView {
    /// The line that [`Line::new`] builds: the default rule, and a row of
    /// the default length whose middle cell alone is alive.
    pub open spec fn initial() -> LineView {
        LineView {
            table: rule_table(DEFAULT_RULE),
            row: Seq::new(
                DEFAULT_LENGTH as nat,
                |i: int|
                    if i == DEFAULT_LENGTH / 2 {
                        Cell::Alive
                    } else {
                        Cell::Dead
                    },
            ),
        }
    }

    /// The same row under the table of rule number `rule`.
    pub open spec fn with_rule(self, rule: u8) -> LineView {
        LineView { table: rule_table(rule), row: self.row }
    }

    /// The same rule table with a row of `length` dead cells.
    pub open spec fn resized(self, length: nat) -> LineView {
        LineView { table: self.table, row: Seq::new(length, |i: int| Cell::Dead) }
    }

    /// The same rule table with the row one generation later.
    pub open spec fn ticked(self) -> LineView {
        LineView { table: self.table, row: next_generation(self.table, self.row) }
    }
}

/// An elementary cellular automaton: a rule and a row of cells.
///
/// The cells live in one buffer. Its first [`RESERVED`] slots hold the rule
/// table; the simulated row follows.
pub struct Line {
    sim_length: usize,
    cells: Vec<Cell>,
}

impl View for Line {
    type V = LineView;

    closed spec fn view(&self) -> LineView {
        LineView {
            table: self.cells@.subrange(0, RESERVED as int),
            row: self.cells@.subrange(RESERVED as int, self.cells@.len() as int),
        }
    }
}

/// Writes the table of rule number `rule` into the first slots of `cells`.
fn write_rule(cells: &mut Vec<Cell>, rule: u8)
    requires
        old(cells).len() >= RESERVED,
    ensures
        final(cells)@.len() == old(cells)@.len(),
        final(cells)@.subrange(0, RESERVED as int) == rule_table(rule),
        forall|j: int| RESERVED <= j < old(cells)@.len() ==> final(cells)@[j] == old(cells)@[j],
    no_unwind
{
    let mut i: usize = 0;
    while i < RESERVED
        invariant
            i <= RESERVED,
            cells@.len() == old(cells)@.len(),
            cells@.len() >= RESERVED,
            forall|j: int| 0 <= j < i ==> cells@[j] == rule_table(rule)[j],
            forall|j: int| RESERVED <= j < cells@.len() ==> cells@[j] == old(cells)@[j],
        decreases RESERVED - i,
    {
        let entry = table_entry(rule, i);
        cells[i] = entry;
        i += 1;
    }
}

/// Looks up, in the rule table at the head of `cells`, the outcome of one
/// neighborhood.
fn outcome(cells: &Vec<Cell>, left: Cell, center: Cell, right: Cell) -> (next: Cell)
    requires
        cells.len() >= RESERVED,
    ensures
        next == cells@[pattern_index(left, center, right)],
{
    match (left, center, right) {
        (Cell::Alive, Cell::Alive, Cell::Alive) => cells[0],
        (Cell::Alive, Cell::Alive, Cell::Dead) => cells[1],
        (Cell::Alive, Cell::Dead, Cell::Alive) => cells[2],
        (Cell::Alive, Cell::Dead, Cell::Dead) => cells[3],
        (Cell::Dead, Cell::Alive, Cell::Alive) => cells[4],
        (Cell::Dead, Cell::Alive, Cell::Dead) => cells[5],
        (Cell::Dead, Cell::Dead, Cell::Alive) => cells[6],
        (Cell::Dead, Cell::Dead, Cell::Dead) => cells[7],
    }
}

impl Line {
    /// The buffer is as long as the rule table and the row together.
    #[verifier::type_invariant]
    spec fn well_formed(self) -> bool {
        self.cells@.len() == RESERVED + self.sim_length
    }

    /// A line of [`DEFAULT_LENGTH`] cells under rule [`DEFAULT_RULE`], all
    /// dead but the one in the middle.
    pub fn new() -> (line: Line)
        ensures
            line@ == LineView::initial(),
    {
        let sim_length: usize = DEFAULT_LENGTH;
        let total_length: usize = RESERVED + sim_length;
        let mut cells: Vec<Cell> = vec![Cell::Dead; total_length];
        write_rule(&mut cells, DEFAULT_RULE);
        let middle: usize = RESERVED + sim_length / 2;
        cells[middle] = Cell::Alive;
        let line = Line { sim_length, cells };
        assert(line@.table =~= LineView::initial().table);
        assert(line@.row =~= LineView::initial().row);
        line
    }

    /// Replaces the rule table by that of rule number `rule`. The row stays
    /// as it is.
    pub fn change_rule(&mut self, rule: u8)
        ensures
            final(self)@ == old(self)@.with_rule(rule),
            forall|p: int| 0 <= p < 8 ==> final(self)@.table[7 - p] == rule_outcome(rule, p),
    {
        proof {
            use_type_invariant(&*self);
        }
        write_rule(&mut self.cells, rule);
        assert(self@.row =~= old(self)@.row);
    }

    /// Gives the row `sim_length` cells, all dead. The rule table stays as
    /// it is; what the row held is dropped.
    pub fn set_length(&mut self, sim_length: usize)
        requires
            sim_length + RESERVED <= usize::MAX,
        ensures
            final(self)@ == old(self)@.resized(sim_length as nat),
            final(self)@.table == old(self)@.table,
            final(self)@.row.len() == sim_length,
            forall|i: int| 0 <= i < sim_length ==> final(self)@.row[i] == Cell::Dead,
    {
        proof {
            use_type_invariant(&*self);
        }
        let total_length: usize = RESERVED + sim_length;
        let mut new_cells: Vec<Cell> = vec![Cell::Dead; total_length];
        let mut i: usize = 0;
        while i < RESERVED
            invariant
                i <= RESERVED,
                self.cells@.len() >= RESERVED,
                new_cells@.len() == total_length,
                total_length == RESERVED + sim_length,
                forall|j: int| 0 <= j < i ==> new_cells@[j] == self.cells@[j],
                forall|j: int| RESERVED <= j < total_length ==> new_cells@[j] == Cell::Dead,
            decreases RESERVED - i,
        {
            new_cells[i] = self.cells[i];
            i += 1;
        }
        *self = Line { sim_length, cells: new_cells };
        assert(self@.table =~= old(self)@.table);
        assert(self@.row =~= old(self)@.resized(sim_length as nat).row);
    }

    /// Advances the row by one generation, in place.
    ///
    /// Each cell is computed from itself and its two neighbors as they were
    /// before the call; beyond either end of the row stands a dead cell. A
    /// computed cell is written one step late, when its right neighbor has
    /// been read.
    pub fn tick(&mut self)
        ensures
            final(self)@ == old(self)@.ticked(),
    {
        proof {
            use_type_invariant(&*self);
        }
        if self.sim_length == 0 {
            assert(self@.row =~= old(self)@.ticked().row);
            return ;
        }
        let end: usize = self.cells.len();
        let ghost table = self@.table;
        let ghost row = self@.row;
        let mut prev_state = Cell::Dead;
        let mut i: usize = RESERVED;
        while i < end
            invariant
                RESERVED <= i <= end,
                end == RESERVED + self.sim_length,
                self.cells@.len() == end,
                table.len() == RESERVED,
                row.len() == end - RESERVED,
                forall|k: int| 0 <= k < RESERVED ==> self.cells@[k] == #[trigger] table[k],
                forall|k: int|
                    0 <= k < i - RESERVED - 1 ==> self.cells@[RESERVED + k] == #[trigger] successor(
                        table,
                        row,
                        k,
                    ),
                forall|k: int|
                    0 <= k < row.len() && i - RESERVED - 1 <= k ==> self.cells@[RESERVED + k]
                        == #[trigger] row[k],
                i > RESERVED ==> prev_state == successor(table, row, i - RESERVED - 1),
            decreases end - i,
        {
            let ghost k = i - RESERVED;
            let left = if i == RESERVED {
                Cell::Dead
            } else {
                self.cells[i - 1]
            };
            let right = if i == end - 1 {
                Cell::Dead
            } else {
                self.cells[i + 1]
            };
            let center = self.cells[i];
            let current_state = outcome(&self.cells, left, center, right);
            proof {
                assert(center == row[k]);
                assert(left == left_of(row, k)) by {
                    if k > 0 {
                        assert(self.cells@[RESERVED + (k - 1)] == row[k - 1]);
                    }
                }
                assert(right == right_of(row, k)) by {
                    if k < row.len() - 1 {
                        assert(self.cells@[RESERVED + (k + 1)] == row[k + 1]);
                    }
                }
                let at = pattern_index(left, center, right);
                assert(0 <= at < RESERVED);
                assert(self.cells@[at] == table[at]);
                assert(current_state == successor(table, row, k));
            }
            if i != RESERVED {
                self.cells[i - 1] = prev_state;
            }
            prev_state = current_state;
            i += 1;
        }
        self.cells[end - 1] = prev_state;
        assert(self@.table =~= table);
        assert(self@.row =~= next_generation(table, row)) by {
            assert forall|k: int| 0 <= k < row.len() implies self@.row[k] == successor(
                table,
                row,
                k,
            ) by {
                assert(self@.row[k] == self.cells@[RESERVED + k]);
            }
        }
    }

    /// The rule table: eight cells, the outcome of pattern 7 first.
    pub fn rule_table(&self) -> (table: &[Cell])
        ensures
            table@ == self@.table,
            table@.len() == RESERVED,
    {
        proof {
            use_type_invariant(self);
        }
        slice_subrange(self.cells.as_slice(), 0, RESERVED)
    }

    /// The simulated cells, from left to right. The view borrows the line,
    /// so it cannot outlive a later change to it.
    pub fn cells(&self) -> (row: &[Cell])
        ensures
            row@ == self@.row,
    {
        proof {
            use_type_invariant(self);
        }
        slice_subrange(self.cells.as_slice(), RESERVED, self.cells.len())
    }

    /// Number of simulated cells.
    pub fn length(&self) -> (n: usize)
        ensures
            n == self@.row.len(),
    {
        proof {
            use_type_invariant(self);
        }
        self.sim_length
    }
}

/// Ticking is deterministic: two lines with the same rule table and the same
/// row have the same rule table and the same row after one tick each.
pub proof fn lemma_tick_deterministic(a: Line, b: Line, a_next: Line, b_next: Line)
    requires
        a@ == b@,
        a_next@ == a@.ticked(),
        b_next@ == b@.ticked(),
    ensures
        a_next@ == b_next@,
{
}

/// Setting a rule a second time changes nothing.
pub proof fn lemma_change_rule_idempotent(line: LineView, rule: u8)
    ensures
        line.with_rule(rule).with_rule(rule) == line.with_rule(rule),
{
}

/// Resizing keeps the rule table and leaves a row of the new length, all of it
/// dead.
pub proof fn lemma_resized(line: LineView, length: nat)
    ensures
        line.resized(length).table == line.table,
        line.resized(length).row.len() == length,
        forall|i: int| 0 <= i < length ==> line.resized(length).row[i] == Cell::Dead,
{
}

} // verus!
