use vstd::prelude::*;

verus! {

/// Length of the scale pulse of a fresh glyph, in microseconds.
pub const PULSE_MICROS: u64 = 220_000;

/// Elapsed pulse time after `dt` more microseconds, saturating at the end
/// of the pulse.
pub open spec fn pulse_after(elapsed: nat, dt: nat) -> nat {
    if elapsed + dt < PULSE_MICROS as nat {
        elapsed + dt
    } else {
        PULSE_MICROS as nat
    }
}

/// Progress of one glyph's pulse. Its fraction `t` in `[0, 1]` is
/// `elapsed / PULSE_MICROS`; at `t = 1` the glyph is at rest.
#[derive(Clone, Copy)]
pub struct Pulse {
    elapsed: u64,
}

impl View for Pulse {
    /// Microseconds of the pulse that have run.
    type V = nat;

    closed spec fn view(&self) -> nat {
        self.elapsed as nat
    }
}

impl Pulse {
    /// Progress never passes the end of the pulse.
    pub open spec fn wf(&self) -> bool {
        self@ <= PULSE_MICROS as nat
    }

    /// A pulse that has just started (`t = 0`).
    pub fn new() -> (r: Pulse)
        ensures
            r.wf(),
            r@ == 0,
    {
        Pulse { elapsed: 0 }
    }

    pub fn elapsed_micros(&self) -> (r: u64)
        ensures
            r as nat == self@,
    {
        self.elapsed
    }

    /// Whether the pulse has reached its end (`t = 1`).
    pub fn is_settled(&self) -> (r: bool)
        ensures
            r == (self@ == PULSE_MICROS as nat),
    {
        self.elapsed == PULSE_MICROS
    }

    /// Lets `dt` microseconds pass: `t = min(t + dt / duration, 1)`.
    pub fn advance(&mut self, dt: u64)
        requires
            old(self).wf(),
        ensures
            final(self).wf(),
            final(self)@ == pulse_after(old(self)@, dt as nat),
            old(self)@ <= final(self)@,
    {
        if dt < PULSE_MICROS - self.elapsed {
            self.elapsed = self.elapsed + dt;
        } else {
            self.elapsed = PULSE_MICROS;
        }
    }
}

} // verus!
