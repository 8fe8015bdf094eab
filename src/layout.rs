use vstd::prelude::*;

verus! {

/// Number of columns of the grid.
pub const COLS: usize = 80;

/// Number of rows of the grid.
pub const ROWS: usize = 40;

/// Number of cells of the grid.
pub const CELL_COUNT: usize = 3200;

/// Whether `(col, row)` names a cell of the grid.
pub open spec fn in_grid(col: int, row: int) -> bool {
    0 <= col < COLS as int && 0 <= row < ROWS as int
}

/// Row-major index of the cell `(col, row)`.
pub open spec fn cell_index(col: int, row: int) -> int {
    row * COLS as int + col
}

/// Row-major index of a cell of the grid.
pub fn index_of(col: usize, row: usize) -> (r: usize)
    requires
        in_grid(col as int, row as int),
    ensures
        r as int == cell_index(col as int, row as int),
        r < CELL_COUNT,
{
    row * COLS + col
}

} // verus!
