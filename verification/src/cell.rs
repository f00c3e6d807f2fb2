//! The state of one automaton cell.

use std::ops::Not;
use vstd::prelude::*;
use vstd::std_specs::ops::NotSpecImpl;

verus! {

/// One cell of the automaton: either dead or alive.
#[derive(Debug, Clone, Copy, PartialEq, Eq, Structural)]
pub enum Cell {
    Dead,
    Alive,
}

impl Cell {
    /// The opposite state.
    pub open spec fn negated(self) -> Cell {
        match self {
            Cell::Dead => Cell::Alive,
            Cell::Alive => Cell::Dead,
        }
    }

    /// The state of a cell that is alive exactly when `alive` holds.
    pub open spec fn of_alive(alive: bool) -> Cell {
        if alive {
            Cell::Alive
        } else {
            Cell::Dead
        }
    }

    /// Turns a yes/no answer to "is it alive?" into a cell state.
    pub fn from_alive(alive: bool) -> (cell: Cell)
        ensures
            cell == Cell::of_alive(alive),
    {
        if alive {
            Cell::Alive
        } else {
            Cell::Dead
        }
    }

    /// Whether the cell is alive.
    pub fn is_alive(self) -> (alive: bool)
        ensures
            alive == (self == Cell::Alive),
    {
        match self {
            Cell::Dead => false,
            Cell::Alive => true,
        }
    }
}

impl Not for Cell {
    type Output = Cell;

    /// `!cell` is the opposite state of `cell`.
    fn not(self) -> (flipped: Cell)
        ensures
            flipped == self.negated(),
    {
        match self {
            Cell::Dead => Cell::Alive,
            Cell::Alive => Cell::Dead,
        }
    }
}

impl NotSpecImpl for Cell {
    open spec fn obeys_not_spec() -> bool {
        true
    }

    open spec fn not_req(self) -> bool {
        true
    }

    open spec fn not_spec(self) -> Cell {
        self.negated()
    }
}

/// Negation is an involution: negating a cell twice gives the cell back.
pub proof fn lemma_negation_is_involution(cell: Cell)
    ensures
        cell.negated().negated() == cell,
{
}

/// Negation has no fixed point: a cell and its negation always differ.
pub proof fn lemma_negation_changes_state(cell: Cell)
    ensures
        cell.negated() != cell,
{
}

} // verus!
