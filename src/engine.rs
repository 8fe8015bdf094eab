use vstd::prelude::*;

use crate::cells::{glyph_of, slot_ticked, Cell, CellBuffer};
use crate::cursor::{advance_pos, backspace_pos, newline_pos, CursorState};
use crate::layout::{cell_index, in_grid};

verus! {

/// Whether a typed character is taken: printable ASCII, space to tilde.
pub open spec fn is_typable(c: char) -> bool {
    0x20 <= (c as u32) && (c as u32) <= 0x7e
}

/// Whether `c` is printable ASCII and would be written by `handle_char`.
pub fn accepts_char(c: char) -> (r: bool)
    ensures
        r == is_typable(c),
{
    let v = c as u32;
    0x20 <= v && v <= 0x7e
}

/// What the host must do after a typed character.
pub enum CharEffect<H> {
    /// The character was not printable ASCII; the glyph handed in comes
    /// back unused.
    Rejected { glyph: H },
    /// The glyph now shows at `(col, row)`; `displaced`, if any, is the
    /// glyph that stood there and must be destroyed.
    Placed { col: usize, row: usize, displaced: Option<H> },
}

/// The terminal: cursor plus cell buffer, with glyph handles owned by the
/// host and stored here only as references.
pub struct TerminalGridEngine<H> {
    cursor: CursorState,
    cells: CellBuffer<H>,
}

impl<H> TerminalGridEngine<H> {
    pub open spec fn wf(&self) -> bool {
        self.spec_cursor().wf() && self.spec_cells().wf()
    }

    pub closed spec fn spec_cursor(&self) -> CursorState {
        self.cursor
    }

    pub closed spec fn spec_cells(&self) -> CellBuffer<H> {
        self.cells
    }

    /// Cursor position as `(col, row)`.
    pub open spec fn cursor_at(&self) -> (int, int) {
        self.spec_cursor()@
    }

    /// The slot of the cell `(col, row)`.
    pub open spec fn slot(&self, col: int, row: int) -> Option<Cell<H>> {
        self.spec_cells()@[cell_index(col, row)]
    }

    /// A fresh terminal: cursor at the origin, every cell empty.
    pub fn new() -> (r: TerminalGridEngine<H>)
        ensures
            r.wf(),
            r.cursor_at() == (0int, 0int),
            forall|col: int, row: int| in_grid(col, row) ==> (#[trigger] r.slot(col, row)) is None,
    {
        let r = TerminalGridEngine { cursor: CursorState::new(), cells: CellBuffer::new() };
        assert forall|col: int, row: int| in_grid(col, row) implies (#[trigger] r.slot(col, row)) is None by {
            assert(0 <= cell_index(col, row) < r.cells@.len());
        }
        r
    }

    /// Current cursor position as `(col, row)`.
    pub fn cursor_position(&self) -> (r: (usize, usize))
        requires
            self.wf(),
        ensures
            (r.0 as int, r.1 as int) == self.cursor_at(),
            in_grid(r.0 as int, r.1 as int),
    {
        (self.cursor.col(), self.cursor.row())
    }

    /// The cell at `(col, row)`, if occupied.
    pub fn cell(&self, col: usize, row: usize) -> (r: Option<&Cell<H>>)
        requires
            self.wf(),
            in_grid(col as int, row as int),
        ensures
            r is Some == self.slot(col as int, row as int) is Some,
            r is Some ==> *r->Some_0 == self.slot(col as int, row as int)->Some_0,
    {
        self.cells.get(col, row)
    }

    /// Types `c`: a printable ASCII character is written with `glyph` at the
    /// cursor, which then advances; anything else changes nothing.
    pub fn handle_char(&mut self, c: char, glyph: H) -> (r: CharEffect<H>)
        requires
            old(self).wf(),
        ensures
            final(self).wf(),
            !is_typable(c) ==> r == (CharEffect::Rejected { glyph }) && *final(self) == *old(self),
            is_typable(c) ==> {
                let (col, row) = old(self).cursor_at();
                &&& r matches CharEffect::Placed { col: pc, row: pr, displaced }
                    && pc == col && pr == row && displaced == glyph_of(old(self).slot(col, row))
                &&& final(self).cursor_at() == advance_pos(old(self).cursor_at())
                &&& final(self).slot(col, row) matches Some(cell)
                    && cell.ch == c && cell.glyph == glyph && cell.pulse@ == 0
                &&& forall|oc: int, orow: int| in_grid(oc, orow) && (oc, orow) != (col, row)
                    ==> #[trigger] final(self).slot(oc, orow) == old(self).slot(oc, orow)
            },
    {
        if !accepts_char(c) {
            return CharEffect::Rejected { glyph };
        }
        let col = self.cursor.col();
        let row = self.cursor.row();
        let displaced = self.cells.write(col, row, c, glyph);
        self.cursor.advance();
        proof {
            assert forall|oc: int, orow: int| in_grid(oc, orow) && (oc, orow) != (col as int, row as int)
                implies #[trigger] self.slot(oc, orow) == old(self).slot(oc, orow) by {
                assert(cell_index(oc, orow) != cell_index(col as int, row as int));
            }
        }
        CharEffect::Placed { col, row, displaced }
    }

    /// Deletes the character before the cursor: the cursor steps back and
    /// that cell is emptied, handing back its glyph to destroy. At the
    /// origin nothing happens.
    pub fn handle_backspace(&mut self) -> (r: Option<H>)
        requires
            old(self).wf(),
        ensures
            final(self).wf(),
            final(self).cursor_at() == backspace_pos(old(self).cursor_at()),
            old(self).cursor_at() == (0int, 0int) ==> r.is_none() && *final(self) == *old(self),
            old(self).cursor_at() != (0int, 0int) ==> {
                let (col, row) = final(self).cursor_at();
                &&& r == glyph_of(old(self).slot(col, row))
                &&& final(self).slot(col, row) is None
                &&& forall|oc: int, orow: int| in_grid(oc, orow) && (oc, orow) != (col, row)
                    ==> #[trigger] final(self).slot(oc, orow) == old(self).slot(oc, orow)
            },
    {
        match self.cursor.backspace_target() {
            None => None,
            Some((col, row)) => {
                let r = self.cells.clear(col, row);
                proof {
                    assert forall|oc: int, orow: int| in_grid(oc, orow) && (oc, orow) != (col as int, row as int)
                        implies #[trigger] self.slot(oc, orow) == old(self).slot(oc, orow) by {
                        assert(cell_index(oc, orow) != cell_index(col as int, row as int));
                    }
                }
                r
            }
        }
    }

    /// Enter: the cursor goes to the start of the next row (or of the last
    /// row); no cell changes.
    pub fn handle_newline(&mut self)
        requires
            old(self).wf(),
        ensures
            final(self).wf(),
            final(self).cursor_at() == newline_pos(old(self).cursor_at()),
            final(self).spec_cells() == old(self).spec_cells(),
    {
        self.cursor.newline();
    }

    /// Runs the pulse of every live glyph `dt` more microseconds; the
    /// cursor and what each cell holds stay as they are.
    pub fn tick_animations(&mut self, dt: u64)
        requires
            old(self).wf(),
        ensures
            final(self).wf(),
            final(self).cursor_at() == old(self).cursor_at(),
            forall|col: int, row: int| in_grid(col, row)
                ==> slot_ticked(old(self).slot(col, row), #[trigger] final(self).slot(col, row), dt as nat),
    {
        self.cells.tick(dt);
        proof {
            assert forall|col: int, row: int| in_grid(col, row)
                implies slot_ticked(old(self).slot(col, row), #[trigger] self.slot(col, row), dt as nat) by {
                assert(0 <= cell_index(col, row) < old(self).spec_cells()@.len());
            }
        }
    }
}

} // verus!
