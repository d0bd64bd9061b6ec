//! The mathematical model of a grid: its dimensions, its cells in row-major
//! order, the neighbourhood of a cell on the torus, and the rule that takes
//! one generation to the next.

use vstd::prelude::*;

verus! {

/// The place of cell `(row, column)` in the row-major sequence of a grid
/// that is `columns` wide.
pub open spec fn cell_index(row: int, column: int, columns: int) -> int {
    row * columns + column
}

/// The row of the cell at place `i` of that sequence.
pub open spec fn row_of(i: int, columns: int) -> int {
    i / columns
}

/// The column of the cell at place `i` of that sequence.
pub open spec fn column_of(i: int, columns: int) -> int {
    i % columns
}

/// The coordinate reached from `position` on a ring of `size` places.
/// A `step` of 0 goes one place back, 1 stays, 2 goes one place on.
pub open spec fn wrap(position: int, step: int, size: int) -> int {
    (position + size - 1 + step) % size
}

/// Whether a cell lives in the next generation, given its state and the
/// number of its live neighbours.
pub open spec fn rule(alive: bool, neighbors: int) -> bool {
    neighbors == 3 || (alive && neighbors == 2)
}

/// One generation: what a grid is, apart from how it is stored.
pub struct GridView {
    pub rows: nat,
    pub columns: nat,
    pub cells: Seq<bool>,
}

impl GridView {
    /// There is one cell for each pair of a row and a column.
    pub open spec fn wf(self) -> bool {
        self.cells.len() == self.rows * self.columns
    }

    /// Whether the grid has a cell `(row, column)`.
    pub open spec fn in_bounds(self, row: int, column: int) -> bool {
        0 <= row < self.rows && 0 <= column < self.columns
    }

    /// The state of cell `(row, column)`.
    pub open spec fn alive(self, row: int, column: int) -> bool {
        self.cells[cell_index(row, column, self.columns as int)]
    }

    /// 1 if the cell that lies `row_step`, `column_step` from `(row, column)`
    /// on the torus is alive, else 0.
    pub open spec fn neighbor(self, row: int, column: int, row_step: int, column_step: int) -> int {
        if self.alive(
            wrap(row, row_step, self.rows as int),
            wrap(column, column_step, self.columns as int),
        ) {
            1
        } else {
            0
        }
    }

    /// The number of live cells among the eight around `(row, column)`.
    pub open spec fn live_neighbors(self, row: int, column: int) -> int {
        self.neighbor(row, column, 0, 0) + self.neighbor(row, column, 0, 1)
            + self.neighbor(row, column, 0, 2) + self.neighbor(row, column, 1, 0)
            + self.neighbor(row, column, 1, 2) + self.neighbor(row, column, 2, 0)
            + self.neighbor(row, column, 2, 1) + self.neighbor(row, column, 2, 2)
    }

    /// The state of cell `(row, column)` one generation on.
    pub open spec fn next_alive(self, row: int, column: int) -> bool {
        rule(self.alive(row, column), self.live_neighbors(row, column))
    }

    /// The next generation: every cell judged against this one.
    pub open spec fn step(self) -> GridView {
        GridView {
            rows: self.rows,
            columns: self.columns,
            cells: Seq::new(
                self.cells.len(),
                |i: int|
                    self.next_alive(
                        row_of(i, self.columns as int),
                        column_of(i, self.columns as int),
                    ),
            ),
        }
    }

    /// This generation with cell `(row, column)` set to `alive`.
    pub open spec fn with_cell(self, row: int, column: int, alive: bool) -> GridView {
        GridView {
            rows: self.rows,
            columns: self.columns,
            cells: self.cells.update(cell_index(row, column, self.columns as int), alive),
        }
    }

    /// A generation of the same dimensions in which no cell lives.
    pub open spec fn cleared(self) -> GridView {
        GridView {
            rows: self.rows,
            columns: self.columns,
            cells: Seq::new(self.cells.len(), |i: int| false),
        }
    }

    /// The number of live cells among the first `k` of the nine places
    /// round and at `(row, column)`, taken row by row, the centre left out.
    pub open spec fn live_before(self, row: int, column: int, k: int) -> int
        decreases k,
    {
        if k <= 0 {
            0
        } else if k == 5 {
            self.live_before(row, column, k - 1)
        } else {
            self.live_before(row, column, k - 1) + self.neighbor(
                row,
                column,
                (k - 1) / 3,
                (k - 1) % 3,
            )
        }
    }

    /// One more place counted adds that place's cell, and nothing for the
    /// centre.
    pub proof fn lemma_live_before_unfolds(self, row: int, column: int, k: int)
        requires
            0 <= k,
        ensures
            self.live_before(row, column, k + 1) == self.live_before(row, column, k) + if k == 4 {
                0
            } else {
                self.neighbor(row, column, k / 3, k % 3)
            },
    {
    }

    /// All nine places counted give the number of live neighbours, which is
    /// at most 8.
    pub proof fn lemma_live_before_all(self, row: int, column: int)
        ensures
            self.live_before(row, column, 9) == self.live_neighbors(row, column),
            0 <= self.live_neighbors(row, column) <= 8,
    {
        reveal_with_fuel(GridView::live_before, 10);
    }
}

} // verus!
