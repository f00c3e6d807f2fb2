//! The mathematical model of the automaton.
//!
//! A generation is a matrix of cells, modelled as a sequence of rows. All
//! functions here are specifications; the executable grid is proved against
//! them.

use crate::cell::Cell;
use vstd::prelude::*;

verus! {

/// A matrix is rectangular when it has at least one row, at least one column,
/// and all rows have the same length.
pub open spec fn is_rectangular(m: Seq<Seq<Cell>>) -> bool {
    &&& m.len() >= 1
    &&& m[0].len() >= 1
    &&& forall|i: int| 0 <= i < m.len() ==> (#[trigger] m[i]).len() == m[0].len()
}

/// Whether `(row, col)` addresses a cell of `m`.
pub open spec fn in_bounds(m: Seq<Seq<Cell>>, row: int, col: int) -> bool {
    0 <= row < m.len() && 0 <= col < m[0].len()
}

/// The eight offsets `(d_row, d_col)` of the Moore neighbourhood, in row-major
/// order, the centre left out.
pub open spec fn offsets() -> Seq<(int, int)> {
    seq![(-1, -1), (-1, 0), (-1, 1), (0, -1), (0, 1), (1, -1), (1, 0), (1, 1)]
}

/// The eight positions around `(row, col)`, whether or not they lie on a grid.
pub open spec fn candidates(row: int, col: int) -> Seq<(int, int)> {
    Seq::new(8, |k: int| (row + offsets()[k].0, col + offsets()[k].1))
}

/// The predicate "this position lies on `m`".
pub open spec fn lies_on(m: Seq<Seq<Cell>>) -> spec_fn((int, int)) -> bool {
    |p: (int, int)| in_bounds(m, p.0, p.1)
}

/// The predicate "the cell of `m` at this position is alive".
pub open spec fn alive_on(m: Seq<Seq<Cell>>) -> spec_fn((int, int)) -> bool {
    |p: (int, int)| m[p.0][p.1] == Cell::Alive
}

/// The neighbours of `(row, col)` on `m`: the candidates that lie on the
/// matrix, in their row-major order. Positions beyond an edge are dropped,
/// never wrapped around to the opposite edge.
pub open spec fn neighbors(m: Seq<Seq<Cell>>, row: int, col: int) -> Seq<(int, int)> {
    candidates(row, col).filter(lies_on(m))
}

/// How many neighbours of `(row, col)` are alive.
pub open spec fn alive_neighbors(m: Seq<Seq<Cell>>, row: int, col: int) -> nat {
    neighbors(m, row, col).filter(alive_on(m)).len()
}

/// The transition rule: a live cell survives with two or three live
/// neighbours, a dead cell comes alive with exactly three, and every other
/// cell is dead in the next generation.
pub open spec fn transition(current: Cell, alive_around: nat) -> Cell {
    match current {
        Cell::Alive => Cell::of_alive(alive_around == 2 || alive_around == 3),
        Cell::Dead => Cell::of_alive(alive_around == 3),
    }
}

/// The state of the cell at `(row, col)` one generation after `m`.
pub open spec fn next_cell(m: Seq<Seq<Cell>>, row: int, col: int) -> Cell {
    transition(m[row][col], alive_neighbors(m, row, col))
}

/// The generation that follows `m`. Every cell is computed from `m` alone.
pub open spec fn next_generation(m: Seq<Seq<Cell>>) -> Seq<Seq<Cell>> {
    Seq::new(m.len(), |i: int| Seq::new(m[i].len(), |j: int| next_cell(m, i, j)))
}

/// The matrix of the given size whose cells are all dead.
pub open spec fn all_dead(rows: nat, cols: nat) -> Seq<Seq<Cell>> {
    Seq::new(rows, |i: int| Seq::new(cols, |j: int| Cell::Dead))
}

/// The matrix of the given size whose cells are all alive.
pub open spec fn all_alive(rows: nat, cols: nat) -> Seq<Seq<Cell>> {
    Seq::new(rows, |i: int| Seq::new(cols, |j: int| Cell::Alive))
}

/// Whether every cell of `m` is dead.
pub open spec fn is_all_dead(m: Seq<Seq<Cell>>) -> bool {
    forall|i: int, j: int| 0 <= i < m.len() && 0 <= j < m[i].len() ==> #[trigger] m[i][j] == Cell::Dead
}

/// `m` with the cell at `(row, col)` negated.
pub open spec fn toggled(m: Seq<Seq<Cell>>, row: int, col: int) -> Seq<Seq<Cell>> {
    m.update(row, m[row].update(col, m[row][col].negated()))
}

} // verus!
