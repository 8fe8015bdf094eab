use vstd::prelude::*;

use crate::layout::{in_grid, COLS, ROWS};

verus! {

/// Position one `advance` moves to: the next column, the start of the next
/// row at the end of a row, and the last cell again once the grid is full.
pub open spec fn advance_pos(p: (int, int)) -> (int, int) {
    if p.0 + 1 < COLS as int {
        (p.0 + 1, p.1)
    } else if p.1 + 1 < ROWS as int {
        (0, p.1 + 1)
    } else {
        (COLS as int - 1, ROWS as int - 1)
    }
}

/// Position one `newline` moves to: column zero, and the next row unless
/// the cursor is already on the last one.
pub open spec fn newline_pos(p: (int, int)) -> (int, int) {
    if p.1 + 1 < ROWS as int {
        (0, p.1 + 1)
    } else {
        (0, p.1)
    }
}

/// Position one backspace moves to: the previous column, the end of the
/// previous row from column zero, and nowhere from the origin.
pub open spec fn backspace_pos(p: (int, int)) -> (int, int) {
    if p.0 > 0 {
        (p.0 - 1, p.1)
    } else if p.1 > 0 {
        (COLS as int - 1, p.1 - 1)
    } else {
        p
    }
}

/// Column and row of the cursor.
pub struct CursorState {
    col: usize,
    row: usize,
}

impl View for CursorState {
    type V = (int, int);

    closed spec fn view(&self) -> (int, int) {
        (self.col as int, self.row as int)
    }
}

impl CursorState {
    /// The cursor stays on the grid.
    pub open spec fn wf(&self) -> bool {
        in_grid(self@.0, self@.1)
    }

    /// A cursor at the top-left cell.
    pub fn new() -> (r: CursorState)
        ensures
            r.wf(),
            r@ == (0int, 0int),
    {
        CursorState { col: 0, row: 0 }
    }

    pub fn col(&self) -> (r: usize)
        ensures
            r as int == self@.0,
    {
        self.col
    }

    pub fn row(&self) -> (r: usize)
        ensures
            r as int == self@.1,
    {
        self.row
    }

    /// Moves one cell forward, wrapping at the end of a row and staying on
    /// the last cell once the grid is exhausted.
    pub fn advance(&mut self)
        requires
            old(self).wf(),
        ensures
            final(self).wf(),
            final(self)@ == advance_pos(old(self)@),
    {
        if self.col + 1 < COLS {
            self.col = self.col + 1;
        } else if self.row + 1 < ROWS {
            self.col = 0;
            self.row = self.row + 1;
        } else {
            self.col = COLS - 1;
            self.row = ROWS - 1;
        }
    }

    /// Goes to column zero of the next row, or of the last row when the
    /// cursor is already there.
    pub fn newline(&mut self)
        requires
            old(self).wf(),
        ensures
            final(self).wf(),
            final(self)@ == newline_pos(old(self)@),
    {
        self.col = 0;
        if self.row + 1 < ROWS {
            self.row = self.row + 1;
        }
    }

    /// Steps back one cell and returns the cell to clear; at the origin
    /// nothing moves and `None` is returned.
    pub fn backspace_target(&mut self) -> (r: Option<(usize, usize)>)
        requires
            old(self).wf(),
        ensures
            final(self).wf(),
            final(self)@ == backspace_pos(old(self)@),
            old(self)@ == (0int, 0int) ==> r.is_none() && *final(self) == *old(self),
            old(self)@ != (0int, 0int) ==> (r matches Some(t) && (t.0 as int, t.1 as int) == final(self)@),
    {
        if self.col > 0 {
            self.col = self.col - 1;
            Some((self.col, self.row))
        } else if self.row > 0 {
            self.col = COLS - 1;
            self.row = self.row - 1;
            Some((self.col, self.row))
        } else {
            None
        }
    }
}

} // verus!
