//! What holds of every grid: facts that relate the model's functions to one
//! another, stated over the view that the operations on a grid speak of.

use crate::index::{lemma_index_in_range, lemma_index_splits, lemma_wrap};
use crate::model::{cell_index, rule, wrap, GridView};
use vstd::prelude::*;

verus! {

/// Each of the nine places round and at a cell of the grid is a cell of the
/// grid: the torus has no outside.
pub proof fn lemma_neighbor_in_grid(
    grid: GridView,
    row: int,
    column: int,
    row_step: int,
    column_step: int,
)
    requires
        grid.wf(),
        grid.in_bounds(row, column),
        0 <= row_step < 3,
        0 <= column_step < 3,
    ensures
        grid.in_bounds(
            wrap(row, row_step, grid.rows as int),
            wrap(column, column_step, grid.columns as int),
        ),
        0 <= cell_index(
            wrap(row, row_step, grid.rows as int),
            wrap(column, column_step, grid.columns as int),
            grid.columns as int,
        ) < grid.cells.len(),
{
    lemma_wrap(row, grid.rows as int);
    lemma_wrap(column, grid.columns as int);
    lemma_index_in_range(
        wrap(row, row_step, grid.rows as int),
        wrap(column, column_step, grid.columns as int),
        grid.rows as int,
        grid.columns as int,
    );
}

/// The eight places round a cell, each shown to be a cell of the grid.
proof fn lemma_neighbors_in_grid(grid: GridView, row: int, column: int)
    requires
        grid.wf(),
        grid.in_bounds(row, column),
    ensures
        forall|row_step: int, column_step: int|
            0 <= row_step < 3 && 0 <= column_step < 3 ==> 0 <= #[trigger] cell_index(
                wrap(row, row_step, grid.rows as int),
                wrap(column, column_step, grid.columns as int),
                grid.columns as int,
            ) < grid.cells.len(),
{
    assert forall|row_step: int, column_step: int|
        0 <= row_step < 3 && 0 <= column_step < 3 implies 0 <= #[trigger] cell_index(
        wrap(row, row_step, grid.rows as int),
        wrap(column, column_step, grid.columns as int),
        grid.columns as int,
    ) < grid.cells.len() by {
        lemma_neighbor_in_grid(grid, row, column, row_step, column_step);
    }
}

/// In a grid without a live cell, no cell has a live neighbour.
pub proof fn lemma_all_dead_no_live_neighbors(grid: GridView, row: int, column: int)
    requires
        grid.wf(),
        grid.in_bounds(row, column),
        forall|i: int| 0 <= i < grid.cells.len() ==> !grid.cells[i],
    ensures
        grid.live_neighbors(row, column) == 0,
{
    lemma_neighbors_in_grid(grid, row, column);
}

/// In a grid without a dead cell, every cell has eight live neighbours,
/// the cells at the edges too.
pub proof fn lemma_all_alive_eight_live_neighbors(grid: GridView, row: int, column: int)
    requires
        grid.wf(),
        grid.in_bounds(row, column),
        forall|i: int| 0 <= i < grid.cells.len() ==> grid.cells[i],
    ensures
        grid.live_neighbors(row, column) == 8,
{
    lemma_neighbors_in_grid(grid, row, column);
}

/// The rule, case by case: a live cell dies with fewer than two live
/// neighbours, lives on with two or three and dies with more than three; a
/// dead cell comes alive with exactly three and stays dead otherwise.
pub proof fn lemma_rule_cases(alive: bool, neighbors: int)
    ensures
        alive && neighbors < 2 ==> !rule(alive, neighbors),
        alive && (neighbors == 2 || neighbors == 3) ==> rule(alive, neighbors),
        alive && neighbors > 3 ==> !rule(alive, neighbors),
        !alive && neighbors == 3 ==> rule(alive, neighbors),
        !alive && neighbors != 3 ==> !rule(alive, neighbors),
{
}

/// The next generation has the dimensions of this one, and each of its
/// cells is what the rule makes of that cell and its neighbours in this
/// one.
pub proof fn lemma_step_cell(grid: GridView, row: int, column: int)
    requires
        grid.wf(),
        grid.in_bounds(row, column),
    ensures
        grid.step().wf(),
        grid.step().rows == grid.rows,
        grid.step().columns == grid.columns,
        grid.step().alive(row, column) == grid.next_alive(row, column),
{
    lemma_index_in_range(row, column, grid.rows as int, grid.columns as int);
    lemma_index_splits(row, column, grid.columns as int);
}

/// The next generation depends on nothing but this one: two grids with the
/// same dimensions and the same cells have the same next generation.
pub proof fn lemma_step_deterministic(first: GridView, second: GridView)
    requires
        first.rows == second.rows,
        first.columns == second.columns,
        first.cells.len() == second.cells.len(),
        forall|i: int| 0 <= i < first.cells.len() ==> first.cells[i] == second.cells[i],
    ensures
        first.step() == second.step(),
{
    assert(first.cells =~= second.cells);
}

/// After a clear, every cell of the grid is dead.
pub proof fn lemma_cleared_all_dead(grid: GridView, row: int, column: int)
    requires
        grid.wf(),
        grid.in_bounds(row, column),
    ensures
        grid.cleared().wf(),
        !grid.cleared().alive(row, column),
{
    lemma_index_in_range(row, column, grid.rows as int, grid.columns as int);
}

/// A cell that was set holds the state that was written, and every other
/// cell holds what it held before.
pub proof fn lemma_set_then_get(
    grid: GridView,
    row: int,
    column: int,
    alive: bool,
    other_row: int,
    other_column: int,
)
    requires
        grid.wf(),
        grid.in_bounds(row, column),
        grid.in_bounds(other_row, other_column),
    ensures
        grid.with_cell(row, column, alive).wf(),
        grid.with_cell(row, column, alive).alive(row, column) == alive,
        (other_row != row || other_column != column) ==> grid.with_cell(row, column, alive).alive(
            other_row,
            other_column,
        ) == grid.alive(other_row, other_column),
{
    lemma_index_in_range(row, column, grid.rows as int, grid.columns as int);
    lemma_index_in_range(other_row, other_column, grid.rows as int, grid.columns as int);
    lemma_index_splits(row, column, grid.columns as int);
    lemma_index_splits(other_row, other_column, grid.columns as int);
}

/// A live cell without company dies, and nothing is born beside it: on a
/// grid of at least three rows and three columns whose only live cell is
/// `(live_row, live_column)`, every cell of the next generation is dead.
pub proof fn lemma_lone_cell_dies(
    grid: GridView,
    live_row: int,
    live_column: int,
    row: int,
    column: int,
)
    requires
        grid.wf(),
        grid.rows >= 3,
        grid.columns >= 3,
        grid.in_bounds(live_row, live_column),
        grid.in_bounds(row, column),
        forall|r: int, c: int|
            grid.in_bounds(r, c) ==> (#[trigger] grid.alive(r, c) <==> r == live_row && c
                == live_column),
    ensures
        grid.live_neighbors(row, column) <= 1,
        !grid.step().alive(row, column),
{
    lemma_step_cell(grid, row, column);
    lemma_wrap(row, grid.rows as int);
    lemma_wrap(column, grid.columns as int);
}

/// Whether `(row, column)` is one of the four cells of the block whose
/// upper left cell is `(top, left)`, the block taken round the edges.
pub open spec fn in_block(grid: GridView, top: int, left: int, row: int, column: int) -> bool {
    (row == top || row == wrap(top, 2, grid.rows as int)) && (column == left || column == wrap(
        left,
        2,
        grid.columns as int,
    ))
}

/// A block of two by two live cells stands still: on a grid of at least
/// three rows and three columns whose live cells are the four of one
/// block, each live cell has three live neighbours, and every cell of the
/// next generation is what it was.
pub proof fn lemma_block_is_stable(grid: GridView, top: int, left: int, row: int, column: int)
    requires
        grid.wf(),
        grid.rows >= 3,
        grid.columns >= 3,
        grid.in_bounds(top, left),
        grid.in_bounds(row, column),
        forall|r: int, c: int|
            grid.in_bounds(r, c) ==> (#[trigger] grid.alive(r, c) <==> in_block(
                grid,
                top,
                left,
                r,
                c,
            )),
    ensures
        grid.alive(row, column) ==> grid.live_neighbors(row, column) == 3,
        grid.step().alive(row, column) == grid.alive(row, column),
{
    lemma_step_cell(grid, row, column);
    lemma_wrap(row, grid.rows as int);
    lemma_wrap(column, grid.columns as int);
    lemma_wrap(top, grid.rows as int);
    lemma_wrap(left, grid.columns as int);
}

} // verus!
