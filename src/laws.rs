use vstd::prelude::*;

use crate::cursor::{advance_pos, backspace_pos, newline_pos};
use crate::layout::{in_grid, COLS, ROWS};
use crate::pulse::{pulse_after, PULSE_MICROS};

verus! {

/// One cursor movement.
pub enum CursorMove {
    Advance,
    Newline,
    Backspace,
}

/// Position after one movement, as `CursorState`'s methods make it.
pub open spec fn move_pos(p: (int, int), m: CursorMove) -> (int, int) {
    match m {
        CursorMove::Advance => advance_pos(p),
        CursorMove::Newline => newline_pos(p),
        CursorMove::Backspace => backspace_pos(p),
    }
}

/// Position after the movements `ms`, in order.
pub open spec fn run_moves(p: (int, int), ms: Seq<CursorMove>) -> (int, int)
    decreases ms.len(),
{
    if ms.len() == 0 {
        p
    } else {
        move_pos(run_moves(p, ms.drop_last()), ms.last())
    }
}

proof fn lemma_run_moves_in_grid(p: (int, int), ms: Seq<CursorMove>)
    requires
        in_grid(p.0, p.1),
    ensures
        in_grid(run_moves(p, ms).0, run_moves(p, ms).1),
    decreases ms.len(),
{
    if ms.len() > 0 {
        lemma_run_moves_in_grid(p, ms.drop_last());
    }
}

/// Whatever movements are made from a cell of the grid, the cursor is on
/// the grid after each one of them.
pub proof fn lemma_cursor_stays_in_grid(p: (int, int), ms: Seq<CursorMove>)
    requires
        in_grid(p.0, p.1),
    ensures
        forall|i: int| 0 <= i <= ms.len()
            ==> in_grid(#[trigger] run_moves(p, ms.take(i)).0, run_moves(p, ms.take(i)).1),
{
    assert forall|i: int| 0 <= i <= ms.len()
        implies in_grid(#[trigger] run_moves(p, ms.take(i)).0, run_moves(p, ms.take(i)).1) by {
        lemma_run_moves_in_grid(p, ms.take(i));
    }
}

/// Away from the last cell of the grid, where `advance` stays put, a
/// backspace after an `advance` brings the cursor back to where it was.
pub proof fn lemma_backspace_undoes_advance(p: (int, int))
    requires
        in_grid(p.0, p.1),
        p.0 > 0,
        p != (COLS as int - 1, ROWS as int - 1),
    ensures
        backspace_pos(advance_pos(p)) == p,
{
}

/// Elapsed pulse time after the ticks `dts`, in order.
pub open spec fn run_pulse(elapsed: nat, dts: Seq<nat>) -> nat
    decreases dts.len(),
{
    if dts.len() == 0 {
        elapsed
    } else {
        pulse_after(run_pulse(elapsed, dts.drop_last()), dts.last())
    }
}

proof fn lemma_run_pulse_steps(elapsed: nat, dts: Seq<nat>, j: int)
    requires
        elapsed <= PULSE_MICROS as nat,
        0 <= j <= dts.len(),
    ensures
        forall|i: int| 0 <= i <= j ==> #[trigger] run_pulse(elapsed, dts.take(i)) <= run_pulse(elapsed, dts.take(j)),
        run_pulse(elapsed, dts.take(j)) <= PULSE_MICROS as nat,
    decreases j,
{
    if j > 0 {
        lemma_run_pulse_steps(elapsed, dts, j - 1);
        assert(dts.take(j).drop_last() == dts.take(j - 1));
    }
}

/// Across any ticks, a pulse's progress never goes back and never passes
/// the end of the pulse (`t <= 1`).
pub proof fn lemma_pulse_monotone_bounded(elapsed: nat, dts: Seq<nat>)
    requires
        elapsed <= PULSE_MICROS as nat,
    ensures
        forall|i: int, j: int| 0 <= i <= j <= dts.len()
            ==> #[trigger] run_pulse(elapsed, dts.take(i)) <= #[trigger] run_pulse(elapsed, dts.take(j))
                && run_pulse(elapsed, dts.take(j)) <= PULSE_MICROS as nat,
{
    assert forall|i: int, j: int| 0 <= i <= j <= dts.len()
        implies #[trigger] run_pulse(elapsed, dts.take(i)) <= #[trigger] run_pulse(elapsed, dts.take(j))
            && run_pulse(elapsed, dts.take(j)) <= PULSE_MICROS as nat by {
        lemma_run_pulse_steps(elapsed, dts, j);
    }
}

} // verus!
