//! Pausing the simulation and stepping it by hand.

use vstd::prelude::*;

verus! {

/// One step of the simulation, a sixtieth of a second, in nanoseconds.
pub const FIXED_STEP: u64 = 16_666_667;

/// Whether the simulation clock stands still.
#[derive(Clone, Copy, Debug, PartialEq, Eq, Structural)]
pub struct Clock {
    pub paused: bool,
}

/// The clock after a frame in which the pause key was or was not struck.
pub open spec fn toggled(clock: Clock, toggle: bool) -> Clock {
    Clock { paused: clock.paused != toggle }
}

/// The time by which to advance the simulation by hand in a frame: one fixed
/// step where the step key is struck while the clock, after the frame's
/// toggle, stands still.
pub open spec fn manual_step(clock: Clock, toggle: bool, step: bool) -> Option<u64> {
    if toggled(clock, toggle).paused && step {
        Some(16_666_667u64)
    } else {
        None
    }
}

impl Clock {
    /// One frame of the two keys: `toggle` pauses a running clock and sets a
    /// paused one running; `step` asks for a single step, which is granted
    /// only while the clock stands still. Returns the time to advance by.
    pub fn control(&mut self, toggle: bool, step: bool) -> (advance: Option<u64>)
        ensures
            *final(self) == toggled(*old(self), toggle),
            advance == manual_step(*old(self), toggle, step),
    {
        if toggle {
            self.paused = !self.paused;
        }
        if self.paused && step {
            Some(FIXED_STEP)
        } else {
            None
        }
    }
}

} // verus!
