//! Laws of the automaton, proved of the model.

use crate::cell::Cell;
use crate::rules::{
    alive_neighbors, alive_on, all_dead, candidates, in_bounds, is_all_dead, is_rectangular,
    lies_on, neighbors, next_cell, next_generation, toggled,
};
use vstd::prelude::*;

verus! {

/// A generation and its successor have the same shape: as many rows, and row
/// for row as many columns. The successor of a rectangular matrix is
/// rectangular.
pub proof fn lemma_next_generation_keeps_shape(m: Seq<Seq<Cell>>)
    ensures
        next_generation(m).len() == m.len(),
        forall|i: int| 0 <= i < m.len() ==> (#[trigger] next_generation(m)[i]).len() == m[i].len(),
        is_rectangular(m) ==> is_rectangular(next_generation(m)),
        is_rectangular(m) ==> next_generation(m)[0].len() == m[0].len(),
{
}

/// A cell has at most eight neighbours, each of them on the matrix, and at
/// most as many live neighbours as it has neighbours.
pub proof fn lemma_neighbor_count_bounds(m: Seq<Seq<Cell>>, row: int, col: int)
    ensures
        neighbors(m, row, col).len() <= 8,
        alive_neighbors(m, row, col) <= neighbors(m, row, col).len(),
        0 <= alive_neighbors(m, row, col) <= 8,
        forall|k: int|
            0 <= k < neighbors(m, row, col).len() ==> in_bounds(
                m,
                (#[trigger] neighbors(m, row, col)[k]).0,
                neighbors(m, row, col)[k].1,
            ),
{
    let around = candidates(row, col);
    around.lemma_filter_len(lies_on(m));
    neighbors(m, row, col).lemma_filter_len(alive_on(m));
    assert forall|k: int| 0 <= k < neighbors(m, row, col).len() implies in_bounds(
        m,
        (#[trigger] neighbors(m, row, col)[k]).0,
        neighbors(m, row, col)[k].1,
    ) by {
        around.lemma_filter_pred(lies_on(m), k);
    }
}

/// The number of live neighbours is the number of neighbour positions whose
/// cell is alive.
pub proof fn lemma_alive_neighbors_counts_neighbors(m: Seq<Seq<Cell>>, row: int, col: int)
    ensures
        alive_neighbors(m, row, col) == neighbors(m, row, col).filter(
            |p: (int, int)| m[p.0][p.1] == Cell::Alive,
        ).len(),
{
    assert(alive_on(m) == (|p: (int, int)| m[p.0][p.1] == Cell::Alive));
}

/// The top-left corner of a matrix with at least two rows and two columns has
/// exactly three neighbours, and none of them lies on the opposite edge.
pub proof fn lemma_corner_has_three_neighbors(m: Seq<Seq<Cell>>)
    requires
        m.len() >= 2,
        m[0].len() >= 2,
    ensures
        neighbors(m, 0, 0) == seq![(0int, 1int), (1int, 0int), (1int, 1int)],
{
    let around = candidates(0, 0);
    let on = lies_on(m);
    let s0 = Seq::<(int, int)>::empty();
    let s1 = s0.push(around[0]);
    let s2 = s1.push(around[1]);
    let s3 = s2.push(around[2]);
    let s4 = s3.push(around[3]);
    let s5 = s4.push(around[4]);
    let s6 = s5.push(around[5]);
    let s7 = s6.push(around[6]);
    let s8 = s7.push(around[7]);
    assert(s8 =~= around);
    s0.lemma_filter_len(on);
    assert(s0.filter(on) =~= s0);
    s0.lemma_filter_push(around[0], on);
    s1.lemma_filter_push(around[1], on);
    s2.lemma_filter_push(around[2], on);
    s3.lemma_filter_push(around[3], on);
    s4.lemma_filter_push(around[4], on);
    s5.lemma_filter_push(around[5], on);
    s6.lemma_filter_push(around[6], on);
    s7.lemma_filter_push(around[7], on);
    assert(s8.filter(on) =~= seq![(0int, 1int), (1int, 0int), (1int, 1int)]);
}

/// A cell on a matrix without a live cell has no live neighbour.
pub proof fn lemma_no_alive_neighbors_when_all_dead(m: Seq<Seq<Cell>>, row: int, col: int)
    requires
        is_rectangular(m),
        is_all_dead(m),
    ensures
        alive_neighbors(m, row, col) == 0,
{
    let around = neighbors(m, row, col);
    lemma_neighbor_count_bounds(m, row, col);
    assert forall|k: int| 0 <= k < around.len() implies !alive_on(m)(#[trigger] around[k]) by {
        let p = around[k];
        assert(in_bounds(m, p.0, p.1));
        assert(m[p.0][p.1] == Cell::Dead);
    }
    assert(around.all(|p: (int, int)| !alive_on(m)(p)));
    around.lemma_all_neg_filter_empty(alive_on(m));
}

/// A rectangular matrix without a live cell is its own successor.
pub proof fn lemma_dead_matrix_is_stable(m: Seq<Seq<Cell>>)
    requires
        is_rectangular(m),
        is_all_dead(m),
    ensures
        next_generation(m) == m,
{
    assert forall|i: int, j: int| 0 <= i < m.len() && 0 <= j < m[i].len() implies next_cell(
        m,
        i,
        j,
    ) == m[i][j] by {
        lemma_no_alive_neighbors_when_all_dead(m, i, j);
        assert(m[i][j] == Cell::Dead);
    }
    assert(next_generation(m) =~~= m);
}

/// The all-dead matrix of any size is a fixed point of the transition.
pub proof fn lemma_all_dead_is_fixed_point(rows: nat, cols: nat)
    ensures
        next_generation(all_dead(rows, cols)) == all_dead(rows, cols),
{
    let m = all_dead(rows, cols);
    if rows >= 1 && cols >= 1 {
        assert(is_all_dead(m));
        lemma_dead_matrix_is_stable(m);
    } else {
        assert(next_generation(m) =~~= m);
    }
}

/// Toggling a cell changes that cell, no other cell, and not the shape.
pub proof fn lemma_toggle_is_local(m: Seq<Seq<Cell>>, row: int, col: int)
    requires
        is_rectangular(m),
        in_bounds(m, row, col),
    ensures
        is_rectangular(toggled(m, row, col)),
        toggled(m, row, col).len() == m.len(),
        toggled(m, row, col)[0].len() == m[0].len(),
        toggled(m, row, col)[row][col] != m[row][col],
        toggled(m, row, col)[row][col] == m[row][col].negated(),
        forall|i: int, j: int|
            in_bounds(m, i, j) && (i != row || j != col) ==> #[trigger] toggled(m, row, col)[i][j]
                == m[i][j],
{
}

/// Toggling the same cell twice restores the matrix.
pub proof fn lemma_toggle_twice_restores(m: Seq<Seq<Cell>>, row: int, col: int)
    requires
        is_rectangular(m),
        in_bounds(m, row, col),
    ensures
        toggled(toggled(m, row, col), row, col) == m,
{
    assert(toggled(toggled(m, row, col), row, col) =~~= m);
}

} // verus!
