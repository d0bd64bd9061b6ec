//! Facts about row-major indexing and about coordinates on a ring.

use crate::model::{cell_index, column_of, row_of, wrap};
use vstd::prelude::*;

verus! {

/// The index of a cell inside a grid lies inside the grid's sequence, and
/// the row's first index does too.
pub proof fn lemma_index_in_range(row: int, column: int, rows: int, columns: int)
    requires
        0 <= row < rows,
        0 <= column < columns,
    ensures
        0 <= row * columns <= cell_index(row, column, columns) < rows * columns,
{
    assert(0 <= row * columns && (row + 1) * columns <= rows * columns) by (nonlinear_arith)
        requires
            0 <= row < rows,
            0 < columns,
    ;
    assert((row + 1) * columns == row * columns + columns) by (nonlinear_arith);
}

/// An index splits into the row and the column that it came from.
pub proof fn lemma_index_splits(row: int, column: int, columns: int)
    requires
        0 <= row,
        0 <= column < columns,
    ensures
        row_of(cell_index(row, column, columns), columns) == row,
        column_of(cell_index(row, column, columns), columns) == column,
{
    vstd::arithmetic::div_mod::lemma_fundamental_div_mod_converse(
        cell_index(row, column, columns),
        columns,
        row,
        column,
    );
}

/// Every index below `rows * columns` is the index of the cell in row
/// `row_of(i, columns)` and column `column_of(i, columns)`, which lies inside
/// the grid.
pub proof fn lemma_index_joins(i: int, rows: int, columns: int)
    requires
        0 <= i < rows * columns,
        0 <= rows,
        0 <= columns,
    ensures
        0 <= row_of(i, columns) < rows,
        0 <= column_of(i, columns) < columns,
        cell_index(row_of(i, columns), column_of(i, columns), columns) == i,
{
    assert(columns > 0) by (nonlinear_arith)
        requires
            0 <= i < rows * columns,
            0 <= columns,
    ;
    vstd::arithmetic::div_mod::lemma_fundamental_div_mod(i, columns);
    vstd::arithmetic::div_mod::lemma_mod_bound(i, columns);
    vstd::arithmetic::div_mod::lemma_div_pos_is_pos(i, columns);
    let q = i / columns;
    assert(columns * q == q * columns) by (nonlinear_arith);
    if q >= rows {
        assert(q * columns >= rows * columns) by (nonlinear_arith)
            requires
                q >= rows,
                columns > 0,
        ;
    }
}

/// Row-major indexing pairs the cells of a grid with the indices below
/// `rows * columns`, one to one: each cell has an index in that range, two
/// different cells have different indices, and each index in the range is
/// that of some cell.
pub proof fn lemma_index_bijection(rows: int, columns: int)
    requires
        1 <= rows,
        1 <= columns,
    ensures
        forall|row: int, column: int|
            0 <= row < rows && 0 <= column < columns ==> 0 <= #[trigger] cell_index(
                row,
                column,
                columns,
            ) < rows * columns,
        forall|row1: int, column1: int, row2: int, column2: int|
            0 <= row1 < rows && 0 <= column1 < columns && 0 <= row2 < rows && 0 <= column2
                < columns && #[trigger] cell_index(row1, column1, columns) == #[trigger] cell_index(
                row2,
                column2,
                columns,
            ) ==> row1 == row2 && column1 == column2,
        forall|i: int|
            0 <= i < rows * columns ==> 0 <= #[trigger] row_of(i, columns) < rows && 0
                <= column_of(i, columns) < columns && cell_index(
                row_of(i, columns),
                column_of(i, columns),
                columns,
            ) == i,
{
    assert forall|row: int, column: int|
        0 <= row < rows && 0 <= column < columns implies 0 <= #[trigger] cell_index(
        row,
        column,
        columns,
    ) < rows * columns by {
        lemma_index_in_range(row, column, rows, columns);
    }
    assert forall|row1: int, column1: int, row2: int, column2: int|
        0 <= row1 < rows && 0 <= column1 < columns && 0 <= row2 < rows && 0 <= column2 < columns
            && #[trigger] cell_index(row1, column1, columns) == #[trigger] cell_index(
            row2,
            column2,
            columns,
        ) implies row1 == row2 && column1 == column2 by {
        lemma_index_splits(row1, column1, columns);
        lemma_index_splits(row2, column2, columns);
    }
    assert forall|i: int| 0 <= i < rows * columns implies 0 <= #[trigger] row_of(i, columns)
        < rows && 0 <= column_of(i, columns) < columns && cell_index(
        row_of(i, columns),
        column_of(i, columns),
        columns,
    ) == i by {
        lemma_index_joins(i, rows, columns);
    }
}

/// On a ring of `size` places, step 0 leads to the place before `position`,
/// step 1 to `position` itself and step 2 to the place after it, each taken
/// round the ring.
pub proof fn lemma_wrap(position: int, size: int)
    requires
        0 <= position < size,
    ensures
        wrap(position, 0, size) == if position == 0 {
            size - 1
        } else {
            position - 1
        },
        wrap(position, 1, size) == position,
        wrap(position, 2, size) == if position == size - 1 {
            0
        } else {
            position + 1
        },
{
    vstd::arithmetic::div_mod::lemma_small_mod((size - 1) as nat, size as nat);
    vstd::arithmetic::div_mod::lemma_small_mod(position as nat, size as nat);
    vstd::arithmetic::div_mod::lemma_mod_add_multiples_vanish(position - 1, size);
    vstd::arithmetic::div_mod::lemma_mod_add_multiples_vanish(position, size);
    vstd::arithmetic::div_mod::lemma_mod_add_multiples_vanish(position + 1, size);
    vstd::arithmetic::div_mod::lemma_mod_add_multiples_vanish(0, size);
    vstd::arithmetic::div_mod::lemma_small_mod(0, size as nat);
    if position > 0 {
        vstd::arithmetic::div_mod::lemma_small_mod((position - 1) as nat, size as nat);
    }
    if position < size - 1 {
        vstd::arithmetic::div_mod::lemma_small_mod((position + 1) as nat, size as nat);
    }
}

} // verus!
