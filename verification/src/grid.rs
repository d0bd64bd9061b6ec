//! The grid of the engine: one generation of cells, bit-packed in row-major
//! order, with the operations that read it, edit it and advance it.

use crate::bits::{
    bit_contents, bits_clear, bits_clone, bits_from_elem, bits_get, bits_len, bits_set,
};
use crate::chance::{draw_ratio, thread_generator};
use crate::index::{lemma_index_in_range, lemma_index_splits, lemma_wrap};
use crate::model::{cell_index, rule, wrap, GridView};
use bit_vec::BitVec;
use vstd::prelude::*;

verus! {

/// Why an operation on a grid failed.
#[derive(Clone, Copy, Debug, PartialEq, Eq, Structural)]
pub enum GridError {
    /// A row or a column lies outside the grid.
    OutOfBounds,
}

/// A fixed-size toroidal grid of cells, each alive or dead.
pub struct Grid {
    rows: usize,
    columns: usize,
    cells: BitVec,
}

impl View for Grid {
    type V = GridView;

    closed spec fn view(&self) -> GridView {
        GridView {
            rows: self.rows as nat,
            columns: self.columns as nat,
            cells: bit_contents(self.cells),
        }
    }
}

impl Grid {
    /// The grid holds one cell for each pair of a row and a column, and the
    /// number of its cells can be counted in a `usize`.
    pub open spec fn wf(&self) -> bool {
        self@.wf() && self@.rows <= usize::MAX && self@.columns <= usize::MAX && self@.cells.len()
            <= usize::MAX
    }

    /// A grid of the given dimensions in which no cell lives.
    pub fn new(rows: usize, columns: usize) -> (grid: Grid)
        requires
            rows * columns <= usize::MAX,
        ensures
            grid.wf(),
            grid@.rows == rows,
            grid@.columns == columns,
            grid@.cells == Seq::new((rows * columns) as nat, |i: int| false),
    {
        Grid { rows, columns, cells: bits_from_elem(rows * columns, false) }
    }

    /// The grid of the given dimensions whose cells, row by row, are those
    /// of `cells`; `None` unless `cells` holds one state for each cell.
    pub fn from_cells(rows: usize, columns: usize, cells: &Vec<bool>) -> (grid: Option<Grid>)
        ensures
            grid is Some <==> rows * columns == cells@.len(),
            grid matches Some(g) ==> g.wf() && g@.rows == rows && g@.columns == columns
                && g@.cells == cells@,
    {
        let given = cells.len();
        let total = match rows.checked_mul(columns) {
            Some(total) => total,
            None => {
                return None;
            },
        };
        if total != given {
            return None;
        }
        let mut grid = Grid::new(rows, columns);
        grid.fill(cells);
        Some(grid)
    }

    /// The number of rows.
    pub fn rows(&self) -> (rows: usize)
        ensures
            rows == self@.rows,
    {
        self.rows
    }

    /// The number of columns.
    pub fn columns(&self) -> (columns: usize)
        ensures
            columns == self@.columns,
    {
        self.columns
    }

    /// The number of cells.
    pub fn cell_count(&self) -> (count: usize)
        requires
            self.wf(),
        ensures
            count == self@.rows * self@.columns,
    {
        bits_len(&self.cells)
    }

    /// The place of cell `(row, column)` in the row-major order of the
    /// cells, or `OutOfBounds` where the grid has no such cell.
    pub fn index(&self, row: usize, column: usize) -> (place: Result<usize, GridError>)
        requires
            self.wf(),
        ensures
            place == if self@.in_bounds(row as int, column as int) {
                Ok::<usize, GridError>(
                    cell_index(row as int, column as int, self@.columns as int) as usize,
                )
            } else {
                Err::<usize, GridError>(GridError::OutOfBounds)
            },
            self@.in_bounds(row as int, column as int) ==> cell_index(
                row as int,
                column as int,
                self@.columns as int,
            ) < self@.cells.len(),
    {
        if row >= self.rows || column >= self.columns {
            return Err(GridError::OutOfBounds);
        }
        proof {
            lemma_index_in_range(row as int, column as int, self.rows as int, self.columns as int);
        }
        Ok(row * self.columns + column)
    }

    /// The state of cell `(row, column)`, or `OutOfBounds` where the grid
    /// has no such cell.
    pub fn get(&self, row: usize, column: usize) -> (state: Result<bool, GridError>)
        requires
            self.wf(),
        ensures
            state == if self@.in_bounds(row as int, column as int) {
                Ok::<bool, GridError>(self@.alive(row as int, column as int))
            } else {
                Err::<bool, GridError>(GridError::OutOfBounds)
            },
    {
        match self.index(row, column) {
            Ok(place) => Ok(bits_get(&self.cells, place).unwrap()),
            Err(e) => Err(e),
        }
    }

    /// Sets cell `(row, column)` to `alive` and leaves every other cell as
    /// it is. Where the grid has no such cell, nothing changes and the
    /// result is `OutOfBounds`.
    pub fn set_cell(&mut self, row: usize, column: usize, alive: bool) -> (done: Result<
        (),
        GridError,
    >)
        requires
            old(self).wf(),
        ensures
            final(self).wf(),
            old(self)@.in_bounds(row as int, column as int) ==> done == Ok::<(), GridError>(())
                && final(self)@ == old(self)@.with_cell(row as int, column as int, alive),
            !old(self)@.in_bounds(row as int, column as int) ==> done == Err::<(), GridError>(
                GridError::OutOfBounds,
            ) && final(self)@ == old(self)@,
    {
        match self.index(row, column) {
            Ok(place) => {
                bits_set(&mut self.cells, place, alive);
                Ok(())
            },
            Err(e) => Err(e),
        }
    }

    /// Sets every cell to dead. The dimensions stay.
    pub fn clear(&mut self)
        requires
            old(self).wf(),
        ensures
            final(self).wf(),
            final(self)@ == old(self)@.cleared(),
    {
        bits_clear(&mut self.cells);
    }

    /// The number of live cells among the eight around cell `(row, column)`,
    /// the grid's edges joined to the opposite edges, or `OutOfBounds` where
    /// the grid has no such cell.
    pub fn count_live_neighbors(&self, row: usize, column: usize) -> (count: Result<
        usize,
        GridError,
    >)
        requires
            self.wf(),
        ensures
            count == if self@.in_bounds(row as int, column as int) {
                Ok::<usize, GridError>(self@.live_neighbors(row as int, column as int) as usize)
            } else {
                Err::<usize, GridError>(GridError::OutOfBounds)
            },
            self@.in_bounds(row as int, column as int) ==> 0 <= self@.live_neighbors(
                row as int,
                column as int,
            ) <= 8,
    {
        if row >= self.rows || column >= self.columns {
            return Err(GridError::OutOfBounds);
        }
        let mut count: usize = 0;
        let mut row_step: usize = 0;
        while row_step < 3
            invariant
                self.wf(),
                self@.in_bounds(row as int, column as int),
                row_step <= 3,
                count == self@.live_before(row as int, column as int, 3 * row_step as int),
                count <= 3 * row_step,
            decreases 3 - row_step,
        {
            let neighbor_row = step_on_ring(row, row_step, self.rows);
            let mut column_step: usize = 0;
            while column_step < 3
                invariant
                    self.wf(),
                    self@.in_bounds(row as int, column as int),
                    row_step < 3,
                    column_step <= 3,
                    neighbor_row == wrap(row as int, row_step as int, self@.rows as int),
                    0 <= neighbor_row < self@.rows,
                    count == self@.live_before(
                        row as int,
                        column as int,
                        3 * row_step as int + column_step as int,
                    ),
                    count <= 3 * row_step + column_step,
                decreases 3 - column_step,
            {
                proof {
                    self@.lemma_live_before_unfolds(
                        row as int,
                        column as int,
                        3 * row_step as int + column_step as int,
                    );
                }
                if !(row_step == 1 && column_step == 1) {
                    let neighbor_column = step_on_ring(column, column_step, self.columns);
                    if self.alive_at(neighbor_row, neighbor_column) {
                        count += 1;
                    }
                }
                column_step += 1;
            }
            row_step += 1;
        }
        proof {
            self@.lemma_live_before_all(row as int, column as int);
        }
        Ok(count)
    }

    /// Replaces this generation by the next one. Every cell is judged
    /// against the generation as it stood before the call.
    pub fn advance(&mut self)
        requires
            old(self).wf(),
        ensures
            final(self).wf(),
            final(self)@ == old(self)@.step(),
    {
        let mut next = bits_clone(&self.cells);
        let mut place: usize = 0;
        let mut row: usize = 0;
        while row < self.rows
            invariant
                self.wf(),
                row <= self.rows,
                place == row * self.columns,
                place <= self@.cells.len(),
                bit_contents(next).len() == self@.cells.len(),
                forall|i: int| 0 <= i < place ==> bit_contents(next)[i] == self@.step().cells[i],
            decreases self.rows - row,
        {
            let mut column: usize = 0;
            while column < self.columns
                invariant
                    self.wf(),
                    row < self.rows,
                    column <= self.columns,
                    place == row * self.columns + column,
                    place <= self@.cells.len(),
                    bit_contents(next).len() == self@.cells.len(),
                    forall|i: int|
                        0 <= i < place ==> bit_contents(next)[i] == self@.step().cells[i],
                decreases self.columns - column,
            {
                proof {
                    lemma_index_in_range(
                        row as int,
                        column as int,
                        self.rows as int,
                        self.columns as int,
                    );
                    lemma_index_splits(row as int, column as int, self.columns as int);
                }
                let alive = self.alive_at(row, column);
                let neighbors = self.live_around(row, column);
                bits_set(&mut next, place, next_state(alive, neighbors));
                column += 1;
                place += 1;
            }
            proof {
                assert((row + 1) * self.columns == row * self.columns + self.columns)
                    by (nonlinear_arith);
            }
            row += 1;
        }
        proof {
            assert(place == self@.cells.len());
            assert(bit_contents(next) =~= self@.step().cells);
        }
        self.cells = next;
    }

    /// Gives every cell the state that `states` holds for it: the cell at
    /// place `i` of the row-major order gets `states[i]`. The dimensions
    /// stay, and nothing of the cells as they were is kept.
    pub fn fill(&mut self, states: &Vec<bool>)
        requires
            old(self).wf(),
            states@.len() == old(self)@.cells.len(),
        ensures
            final(self).wf(),
            final(self)@.rows == old(self)@.rows,
            final(self)@.columns == old(self)@.columns,
            final(self)@.cells == states@,
    {
        let total = states.len();
        let mut place: usize = 0;
        while place < total
            invariant
                self.wf(),
                self@.rows == old(self)@.rows,
                self@.columns == old(self)@.columns,
                total == states@.len(),
                total == self@.cells.len(),
                place <= total,
                forall|i: int| 0 <= i < place ==> self@.cells[i] == states@[i],
            decreases total - place,
        {
            bits_set(&mut self.cells, place, states[place]);
            place += 1;
        }
        proof {
            assert(self@.cells =~= states@);
        }
    }

    /// Gives every cell a new state, alive or dead with equal chance, each
    /// drawn by itself: one draw is made for each cell, in row-major order,
    /// and the grid is filled with the draws. The dimensions stay.
    pub fn reseed(&mut self)
        requires
            old(self).wf(),
        ensures
            final(self).wf(),
            final(self)@.rows == old(self)@.rows,
            final(self)@.columns == old(self)@.columns,
    {
        let states = draw_states(bits_len(&self.cells));
        self.fill(&states);
    }

    /// A grid of the given dimensions in which every cell is alive or dead
    /// with equal chance, each drawn by itself.
    pub fn seed_random(rows: usize, columns: usize) -> (grid: Grid)
        requires
            rows * columns <= usize::MAX,
        ensures
            grid.wf(),
            grid@.rows == rows,
            grid@.columns == columns,
    {
        let mut grid = Grid::new(rows, columns);
        grid.reseed();
        grid
    }

    /// The number of live neighbours of a cell that the grid is known to
    /// have.
    fn live_around(&self, row: usize, column: usize) -> (count: usize)
        requires
            self.wf(),
            self@.in_bounds(row as int, column as int),
        ensures
            count == self@.live_neighbors(row as int, column as int),
    {
        self.count_live_neighbors(row, column).unwrap()
    }

    /// The state of a cell that the grid is known to have.
    fn alive_at(&self, row: usize, column: usize) -> (alive: bool)
        requires
            self.wf(),
            self@.in_bounds(row as int, column as int),
        ensures
            alive == self@.alive(row as int, column as int),
    {
        proof {
            lemma_index_in_range(row as int, column as int, self.rows as int, self.columns as int);
        }
        bits_get(&self.cells, row * self.columns + column).unwrap()
    }
}

/// As many draws of a fair coin as `count` says, in the order in which they
/// were made.
fn draw_states(count: usize) -> (states: Vec<bool>)
    ensures
        states@.len() == count,
{
    let mut rng = thread_generator();
    let mut states: Vec<bool> = Vec::new();
    while states.len() < count
        invariant
            states@.len() <= count,
        decreases count - states@.len(),
    {
        let alive = draw_ratio(&mut rng, 1, 2);
        states.push(alive);
    }
    states
}

/// The rule of the game: a live cell with two or three live neighbours lives
/// on, a dead cell with exactly three comes alive, every other cell is dead
/// in the next generation.
pub fn next_state(alive: bool, neighbors: usize) -> (next: bool)
    ensures
        next == rule(alive, neighbors as int),
{
    if alive {
        if neighbors < 2 {
            false
        } else if neighbors <= 3 {
            true
        } else {
            false
        }
    } else {
        neighbors == 3
    }
}

/// The place reached from `position` on a ring of `size` places: one back
/// for step 0, the same for step 1, one on for step 2.
fn step_on_ring(position: usize, step: usize, size: usize) -> (place: usize)
    requires
        position < size,
        step < 3,
    ensures
        place == wrap(position as int, step as int, size as int),
        place < size,
{
    proof {
        lemma_wrap(position as int, size as int);
    }
    if step == 0 {
        if position == 0 {
            size - 1
        } else {
            position - 1
        }
    } else if step == 1 {
        position
    } else if position == size - 1 {
        0
    } else {
        position + 1
    }
}

} // verus!
