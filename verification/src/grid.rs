//! The executable grid.

use crate::cell::Cell;
use crate::laws::{lemma_corner_has_three_neighbors, lemma_dead_matrix_is_stable};
use crate::random::{gen_ratio, thread_rng};
use crate::rules::{
    alive_neighbors, alive_on, all_alive, all_dead, candidates, in_bounds, is_all_dead, is_rectangular,
    lies_on,
    neighbors, next_cell, next_generation, offsets, toggled,
};
use std::ops::Not;
use vstd::prelude::*;

verus! {

/// The matrix that a vector of rows stands for.
pub open spec fn as_matrix(cells: Vec<Vec<Cell>>) -> Seq<Seq<Cell>> {
    Seq::new(cells@.len(), |i: int| cells@[i]@)
}

/// The positions that a sequence of index pairs stands for.
pub open spec fn as_positions(pairs: Seq<(usize, usize)>) -> Seq<(int, int)> {
    Seq::new(pairs.len(), |k: int| (pairs[k].0 as int, pairs[k].1 as int))
}

/// The offsets of the eight neighbours of a cell, in row-major order.
const DELTAS: [(isize, isize); 8] = [
    (-1, -1),
    (-1, 0),
    (-1, 1),
    (0, -1),
    (0, 1),
    (1, -1),
    (1, 0),
    (1, 1),
];

/// The executable offsets are the offsets of the model.
proof fn lemma_deltas_are_offsets()
    ensures
        forall|k: int|
            0 <= k < 8 ==> (#[trigger] DELTAS[k]).0 == offsets()[k].0 && DELTAS[k].1 == offsets()[k].1,
{
}

/// `index + delta`, if that is an index below `len`.
fn shifted(index: usize, delta: isize, len: usize) -> (moved: Option<usize>)
    requires
        index < len,
        -1 <= delta <= 1,
    ensures
        moved.is_some() == (0 <= index + delta < len),
        moved matches Some(i) ==> i == index + delta,
{
    if delta < 0 {
        if index >= 1 {
            Some(index - 1)
        } else {
            None
        }
    } else if delta == 0 {
        Some(index)
    } else if index + 1 < len {
        Some(index + 1)
    } else {
        None
    }
}

/// A rectangular grid of cells, addressed by `(row, col)`.
///
/// The grid owns its cell matrix. Its view is that matrix as a sequence of
/// rows; a well-formed grid has a rectangular view.
#[derive(Debug)]
pub struct Grid {
    cells: Vec<Vec<Cell>>,
}

impl View for Grid {
    type V = Seq<Seq<Cell>>;

    closed spec fn view(&self) -> Seq<Seq<Cell>> {
        as_matrix(self.cells)
    }
}

impl Grid {
    /// The grid's invariant: at least one row and one column, and no row
    /// shorter or longer than another.
    pub open spec fn wf(&self) -> bool {
        is_rectangular(self@)
    }

    /// New grid with dead cells.
    pub fn new(rows: usize, cols: usize) -> (grid: Grid)
        requires
            rows >= 1,
            cols >= 1,
        ensures
            grid.wf(),
            grid@ == all_dead(rows as nat, cols as nat),
    {
        let grid = Grid { cells: vec![vec![Cell::Dead; cols]; rows] };
        assert(grid@ =~~= all_dead(rows as nat, cols as nat));
        grid
    }

    /// New grid with random cells (dead or alive), each alive with a chance of
    /// one in two.
    pub fn new_random(rows: usize, cols: usize) -> (grid: Grid)
        requires
            rows >= 1,
            cols >= 1,
        ensures
            grid.wf(),
            grid@.len() == rows,
            grid@[0].len() == cols,
    {
        Grid::new_random_with_ratio(rows, cols, 1, 2)
    }

    /// New grid with random cells, each alive with a chance of `numerator` in
    /// `denominator`, drawn independently from the calling thread's generator.
    ///
    /// Whatever is drawn, the grid has the size asked for. With a ratio of
    /// one every cell is alive, with a ratio of zero every cell is dead.
    pub fn new_random_with_ratio(
        rows: usize,
        cols: usize,
        numerator: u32,
        denominator: u32,
    ) -> (grid: Grid)
        requires
            rows >= 1,
            cols >= 1,
            denominator > 0,
            numerator <= denominator,
        ensures
            grid.wf(),
            grid@.len() == rows,
            grid@[0].len() == cols,
            numerator == denominator ==> grid@ == all_alive(rows as nat, cols as nat),
            numerator == 0 ==> grid@ == all_dead(rows as nat, cols as nat),
    {
        let mut rng = thread_rng();
        let mut cells: Vec<Vec<Cell>> = Vec::new();
        let mut i: usize = 0;
        while i < rows
            invariant
                cols >= 1,
                denominator > 0,
                numerator <= denominator,
                i <= rows,
                cells@.len() == i,
                forall|r: int| 0 <= r < i ==> (#[trigger] cells@[r])@.len() == cols,
                numerator == denominator ==> forall|r: int, c: int|
                    0 <= r < i && 0 <= c < cols ==> #[trigger] cells@[r]@[c] == Cell::Alive,
                numerator == 0 ==> forall|r: int, c: int|
                    0 <= r < i && 0 <= c < cols ==> #[trigger] cells@[r]@[c] == Cell::Dead,
            decreases rows - i,
        {
            let mut line: Vec<Cell> = Vec::new();
            let mut j: usize = 0;
            while j < cols
                invariant
                    denominator > 0,
                    numerator <= denominator,
                    j <= cols,
                    line@.len() == j,
                    numerator == denominator ==> forall|c: int|
                        0 <= c < j ==> #[trigger] line@[c] == Cell::Alive,
                    numerator == 0 ==> forall|c: int| 0 <= c < j ==> #[trigger] line@[c] == Cell::Dead,
                decreases cols - j,
            {
                let alive = gen_ratio(&mut rng, numerator, denominator);
                line.push(Cell::from_alive(alive));
                j += 1;
            }
            cells.push(line);
            i += 1;
        }
        let grid = Grid { cells };
        proof {
            if numerator == denominator {
                assert(grid@ =~~= all_alive(rows as nat, cols as nat));
            }
            if numerator == 0 {
                assert(grid@ =~~= all_dead(rows as nat, cols as nat));
            }
        }
        grid
    }

    /// Tells whether `cells` is a matrix that a grid can wrap: at least one
    /// row, at least one column, and all rows of one length.
    pub fn can_wrap(cells: &Vec<Vec<Cell>>) -> (ok: bool)
        ensures
            ok == is_rectangular(as_matrix(*cells)),
    {
        if cells.len() == 0 {
            return false;
        }
        let cols = cells[0].len();
        if cols == 0 {
            return false;
        }
        let mut i: usize = 1;
        while i < cells.len()
            invariant
                1 <= i <= cells@.len(),
                cols == cells@[0]@.len(),
                cols >= 1,
                forall|r: int| 0 <= r < i ==> (#[trigger] as_matrix(*cells)[r]).len() == cols,
            decreases cells@.len() - i,
        {
            if cells[i].len() != cols {
                assert(as_matrix(*cells)[i as int].len() != as_matrix(*cells)[0].len());
                return false;
            }
            i += 1;
        }
        true
    }

    /// Wraps a rectangular matrix of cells as it is, without looking at it
    /// again: that it is rectangular is for the caller to know.
    pub fn from_cells(cells: Vec<Vec<Cell>>) -> (grid: Grid)
        requires
            is_rectangular(as_matrix(cells)),
        ensures
            grid.wf(),
            grid@ == as_matrix(cells),
    {
        Grid { cells }
    }

    /// The cell matrix, row by row.
    pub fn cells(&self) -> (cells: &Vec<Vec<Cell>>)
        ensures
            as_matrix(*cells) == self@,
    {
        &self.cells
    }

    /// Gets how many rows the grid has.
    pub fn rows(&self) -> (rows: usize)
        requires
            self.wf(),
        ensures
            rows == self@.len(),
            rows >= 1,
    {
        self.cells.len()
    }

    /// Gets how many cols the grid has.
    pub fn cols(&self) -> (cols: usize)
        requires
            self.wf(),
        ensures
            cols == self@[0].len(),
            cols >= 1,
    {
        self.cells[0].len()
    }

    /// The cell at `(row, col)`.
    pub fn get(&self, row: usize, col: usize) -> (cell: Cell)
        requires
            self.wf(),
            in_bounds(self@, row as int, col as int),
        ensures
            cell == self@[row as int][col as int],
    {
        self.cells[row][col]
    }

    /// The `k`-th of the eight positions around `(row, col)`, if it lies on
    /// the grid.
    fn neighbor(&self, row: usize, col: usize, k: usize) -> (found: Option<(usize, usize)>)
        requires
            self.wf(),
            in_bounds(self@, row as int, col as int),
            k < 8,
        ensures
            found.is_some() == lies_on(self@)(candidates(row as int, col as int)[k as int]),
            found matches Some(p) ==> (p.0 as int, p.1 as int) == candidates(
                row as int,
                col as int,
            )[k as int],
    {
        proof {
            lemma_deltas_are_offsets();
        }
        let (d_row, d_col) = DELTAS[k];
        match (shifted(row, d_row, self.rows()), shifted(col, d_col, self.cols())) {
            (Some(r), Some(c)) => Some((r, c)),
            _ => None,
        }
    }

    /// The neighbours of `(row, col)`: the up to eight positions around it
    /// that lie on the grid, in row-major order. Nothing wraps around an edge.
    pub fn neighbor_positions(&self, row: usize, col: usize) -> (positions: Vec<(usize, usize)>)
        requires
            self.wf(),
            in_bounds(self@, row as int, col as int),
        ensures
            as_positions(positions@) == neighbors(self@, row as int, col as int),
            positions@.len() <= 8,
            row == 0 && col == 0 && self@.len() >= 2 && self@[0].len() >= 2 ==> positions@ == seq![
                (0usize, 1usize),
                (1usize, 0usize),
                (1usize, 1usize),
            ],
    {
        let ghost around = candidates(row as int, col as int);
        let mut positions: Vec<(usize, usize)> = Vec::new();
        let mut k: usize = 0;
        assert(around.take(0).filter(lies_on(self@)) =~= Seq::empty()) by {
            around.take(0).lemma_filter_len(lies_on(self@));
        }
        while k < 8
            invariant
                self.wf(),
                in_bounds(self@, row as int, col as int),
                around == candidates(row as int, col as int),
                k <= 8,
                positions@.len() <= k,
                as_positions(positions@) == around.take(k as int).filter(lies_on(self@)),
            decreases 8 - k,
        {
            let ghost before = positions@;
            let found = self.neighbor(row, col, k);
            proof {
                assert(around.take(k + 1) =~= around.take(k as int).push(around[k as int]));
                around.take(k as int).lemma_filter_push(around[k as int], lies_on(self@));
            }
            if let Some(p) = found {
                positions.push(p);
                assert(as_positions(positions@) =~= as_positions(before).push(around[k as int]));
            }
            k += 1;
        }
        assert(around.take(8) =~= around);
        proof {
            if row == 0 && col == 0 && self@.len() >= 2 && self@[0].len() >= 2 {
                lemma_corner_has_three_neighbors(self@);
                let corner = seq![(0usize, 1usize), (1usize, 0usize), (1usize, 1usize)];
                assert(as_positions(positions@).len() == 3);
                assert forall|k: int| 0 <= k < 3 implies positions@[k] == corner[k] by {
                    assert(as_positions(positions@)[k] == as_positions(corner)[k]);
                }
                assert(positions@ =~= corner);
            }
        }
        positions
    }

    /// Checks for valid neighbors of a cell and returns how many of them are alive.
    pub fn count_alive_neighbors(&self, row: usize, col: usize) -> (count: u8)
        requires
            self.wf(),
            in_bounds(self@, row as int, col as int),
        ensures
            count == alive_neighbors(self@, row as int, col as int),
            count == neighbors(self@, row as int, col as int).filter(alive_on(self@)).len(),
            count <= 8,
    {
        let ghost around = candidates(row as int, col as int);
        let mut count: u8 = 0;
        let mut k: usize = 0;
        proof {
            around.take(0).lemma_filter_len(lies_on(self@));
            around.take(0).filter(lies_on(self@)).lemma_filter_len(alive_on(self@));
        }
        while k < 8
            invariant
                self.wf(),
                in_bounds(self@, row as int, col as int),
                around == candidates(row as int, col as int),
                k <= 8,
                count <= k,
                count == around.take(k as int).filter(lies_on(self@)).filter(alive_on(self@)).len(),
            decreases 8 - k,
        {
            let found = self.neighbor(row, col, k);
            proof {
                let seen = around.take(k as int);
                assert(around.take(k + 1) =~= seen.push(around[k as int]));
                seen.lemma_filter_push(around[k as int], lies_on(self@));
                seen.filter(lies_on(self@)).lemma_filter_push(around[k as int], alive_on(self@));
            }
            if let Some((r, c)) = found {
                if self.cells[r][c] == Cell::Alive {
                    count += 1;
                }
            }
            k += 1;
        }
        assert(around.take(8) =~= around);
        count
    }

    /// For each cell in the grid calculates if in the next gen is going to be alive or not.
    /// Returns the next generation; the grid itself is left as it is.
    pub fn calculate_next_gen(&self) -> (next_gen: Vec<Vec<Cell>>)
        requires
            self.wf(),
        ensures
            as_matrix(next_gen) == next_generation(self@),
            is_rectangular(as_matrix(next_gen)),
            next_gen@.len() == self@.len(),
            next_gen@[0]@.len() == self@[0].len(),
    {
        let rows = self.rows();
        let cols = self.cols();
        let mut next_gen: Vec<Vec<Cell>> = Vec::new();
        let mut i: usize = 0;
        while i < rows
            invariant
                self.wf(),
                rows == self@.len(),
                cols == self@[0].len(),
                i <= rows,
                next_gen@.len() == i,
                forall|r: int| 0 <= r < i ==> (#[trigger] next_gen@[r])@ == next_generation(self@)[r],
            decreases rows - i,
        {
            let mut line: Vec<Cell> = Vec::new();
            let mut j: usize = 0;
            while j < cols
                invariant
                    self.wf(),
                    rows == self@.len(),
                    cols == self@[0].len(),
                    i < rows,
                    j <= cols,
                    line@.len() == j,
                    forall|c: int| 0 <= c < j ==> #[trigger] line@[c] == next_cell(self@, i as int, c),
                decreases cols - j,
            {
                let current_gen_cell = self.cells[i][j];
                let alive_neighbors = self.count_alive_neighbors(i, j);
                let next_gen_cell = match current_gen_cell {
                    Cell::Alive => Cell::from_alive(alive_neighbors == 2 || alive_neighbors == 3),
                    Cell::Dead => Cell::from_alive(alive_neighbors == 3),
                };
                line.push(next_gen_cell);
                j += 1;
            }
            assert(line@ =~= next_generation(self@)[i as int]);
            next_gen.push(line);
            i += 1;
        }
        assert(as_matrix(next_gen) =~= next_generation(self@));
        next_gen
    }

    /// Calculates next generation and updates the grid state with that result.
    pub fn update(&mut self)
        requires
            old(self).wf(),
        ensures
            final(self).wf(),
            final(self)@ == next_generation(old(self)@),
            final(self)@.len() == old(self)@.len(),
            final(self)@[0].len() == old(self)@[0].len(),
            is_all_dead(old(self)@) ==> final(self)@ == old(self)@,
    {
        proof {
            if is_all_dead(self@) {
                lemma_dead_matrix_is_stable(self@);
            }
        }
        self.cells = self.calculate_next_gen();
    }

    /// Negates the cell at `(row, col)` and leaves every other cell alone.
    pub fn toggle_cell(&mut self, row: usize, col: usize)
        requires
            old(self).wf(),
            in_bounds(old(self)@, row as int, col as int),
        ensures
            final(self).wf(),
            final(self)@ == toggled(old(self)@, row as int, col as int),
            final(self)@.len() == old(self)@.len(),
            final(self)@[0].len() == old(self)@[0].len(),
            final(self)@[row as int][col as int] == old(self)@[row as int][col as int].negated(),
            forall|i: int, j: int|
                in_bounds(old(self)@, i, j) && (i != row || j != col)
                    ==> #[trigger] final(self)@[i][j] == old(self)@[i][j],
    {
        let cell = self.cells[row][col];
        self.cells[row][col] = cell.not();
        assert(self@ =~~= toggled(old(self)@, row as int, col as int));
    }
}

} // verus!
