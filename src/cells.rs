use vstd::prelude::*;

use crate::layout::{cell_index, in_grid, index_of, CELL_COUNT};
use crate::pulse::{pulse_after, Pulse};

verus! {

/// One occupied cell: its character, the host's handle for the glyph drawn
/// there, and the glyph's pulse.
pub struct Cell<H> {
    pub ch: char,
    pub glyph: H,
    pub pulse: Pulse,
}

impl<H> Cell<H> {
    pub fn ch(&self) -> (r: char)
        ensures
            r == self.ch,
    {
        self.ch
    }

    pub fn glyph(&self) -> (r: &H)
        ensures
            *r == self.glyph,
    {
        &self.glyph
    }

    pub fn pulse(&self) -> (r: Pulse)
        ensures
            r == self.pulse,
    {
        self.pulse
    }
}

/// The handle held by a slot, if any.
pub open spec fn glyph_of<H>(slot: Option<Cell<H>>) -> Option<H> {
    match slot {
        Some(c) => Some(c.glyph),
        None => None,
    }
}

/// Whether `after` is `before` with its pulse run `dt` more microseconds.
pub open spec fn slot_ticked<H>(before: Option<Cell<H>>, after: Option<Cell<H>>, dt: nat) -> bool {
    match (before, after) {
        (Some(b), Some(a)) => a.ch == b.ch && a.glyph == b.glyph && a.pulse.wf()
            && a.pulse@ == pulse_after(b.pulse@, dt),
        (None, None) => true,
        _ => false,
    }
}

/// Fixed-length, row-major store of the grid's cells.
pub struct CellBuffer<H> {
    slots: Vec<Option<Cell<H>>>,
}

impl<H> View for CellBuffer<H> {
    type V = Seq<Option<Cell<H>>>;

    closed spec fn view(&self) -> Seq<Option<Cell<H>>> {
        self.slots@
    }
}

impl<H> CellBuffer<H> {
    /// One slot per cell, and every pulse within its bounds.
    pub open spec fn wf(&self) -> bool {
        &&& self@.len() == CELL_COUNT as int
        &&& forall|i: int| 0 <= i < self@.len() && (#[trigger] self@[i]) is Some
                ==> self@[i]->Some_0.pulse.wf()
    }

    /// A buffer with every cell empty.
    pub fn new() -> (r: CellBuffer<H>)
        ensures
            r.wf(),
            forall|i: int| 0 <= i < r@.len() ==> (#[trigger] r@[i]) is None,
    {
        let mut slots: Vec<Option<Cell<H>>> = Vec::new();
        let mut i: usize = 0;
        while i < CELL_COUNT
            invariant
                i <= CELL_COUNT,
                slots@.len() == i,
                forall|j: int| 0 <= j < i ==> (#[trigger] slots@[j]) is None,
            decreases CELL_COUNT - i,
        {
            slots.push(None);
            i = i + 1;
        }
        CellBuffer { slots }
    }

    /// Stores `ch` with its glyph and a fresh pulse at `(col, row)`, and
    /// hands back the glyph that was there before.
    pub fn write(&mut self, col: usize, row: usize, ch: char, glyph: H) -> (r: Option<H>)
        requires
            old(self).wf(),
            in_grid(col as int, row as int),
        ensures
            final(self).wf(),
            r == glyph_of(old(self)@[cell_index(col as int, row as int)]),
            final(self)@.len() == old(self)@.len(),
            forall|i: int| 0 <= i < old(self)@.len() && i != cell_index(col as int, row as int)
                ==> #[trigger] final(self)@[i] == old(self)@[i],
            final(self)@[cell_index(col as int, row as int)] matches Some(c)
                && c.ch == ch && c.glyph == glyph && c.pulse.wf() && c.pulse@ == 0,
    {
        let idx = index_of(col, row);
        let old_cell = self.slots[idx].take();
        self.slots[idx] = Some(Cell { ch, glyph, pulse: Pulse::new() });
        match old_cell {
            Some(c) => Some(c.glyph),
            None => None,
        }
    }

    /// Empties `(col, row)` and hands back the glyph that was there.
    pub fn clear(&mut self, col: usize, row: usize) -> (r: Option<H>)
        requires
            old(self).wf(),
            in_grid(col as int, row as int),
        ensures
            final(self).wf(),
            r == glyph_of(old(self)@[cell_index(col as int, row as int)]),
            final(self)@ == old(self)@.update(cell_index(col as int, row as int), None),
    {
        let idx = index_of(col, row);
        let old_cell = self.slots[idx].take();
        match old_cell {
            Some(c) => Some(c.glyph),
            None => None,
        }
    }

    /// The cell at `(col, row)`, if occupied.
    pub fn get(&self, col: usize, row: usize) -> (r: Option<&Cell<H>>)
        requires
            self.wf(),
            in_grid(col as int, row as int),
        ensures
            r is Some == self@[cell_index(col as int, row as int)] is Some,
            r is Some ==> *r->Some_0 == self@[cell_index(col as int, row as int)]->Some_0,
    {
        let idx = index_of(col, row);
        self.slots[idx].as_ref()
    }

    /// Runs every live glyph's pulse `dt` more microseconds.
    pub fn tick(&mut self, dt: u64)
        requires
            old(self).wf(),
        ensures
            final(self).wf(),
            final(self)@.len() == old(self)@.len(),
            forall|i: int| 0 <= i < old(self)@.len()
                ==> slot_ticked(old(self)@[i], #[trigger] final(self)@[i], dt as nat),
    {
        let ghost before = self.slots@;
        let mut i: usize = 0;
        while i < self.slots.len()
            invariant
                before.len() == CELL_COUNT,
                self.slots@.len() == before.len(),
                i <= before.len(),
                forall|j: int| 0 <= j < i ==> slot_ticked(before[j], #[trigger] self.slots@[j], dt as nat),
                forall|j: int| i <= j < before.len() ==> #[trigger] self.slots@[j] == before[j],
                forall|j: int| 0 <= j < before.len() && (#[trigger] before[j]) is Some
                    ==> before[j]->Some_0.pulse.wf(),
            decreases before.len() - i,
        {
            let slot = self.slots[i].take();
            match slot {
                Some(mut c) => {
                    c.pulse.advance(dt);
                    self.slots[i] = Some(c);
                }
                None => {}
            }
            i = i + 1;
        }
    }
}

} // verus!
