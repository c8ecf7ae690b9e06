use vstd::prelude::*;

verus! {

/// The state of one cell.
///
/// `Dead` is declared first, so that a cell read as a number is 0 when dead
/// and 1 when alive.
#[derive(Clone, Copy, Debug, PartialEq, Eq, Structural)]
pub enum Cell {
    Dead,
    Alive,
}

impl Cell {
    /// The cell as a binary digit: 1 when alive, 0 when dead.
    pub open spec fn bit(self) -> int {
        match self {
            Cell::Alive => 1,
            Cell::Dead => 0,
        }
    }
}

} // verus!
