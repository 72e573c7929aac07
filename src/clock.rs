//! The frame clock: time since launch and the time one frame took.
use vstd::prelude::*;

verus! {

/// Time since launch at the last update, and how much of it passed since the
/// update before, both in microseconds.
#[derive(Clone, Copy, Debug, PartialEq, Eq)]
pub struct FrameClock {
    current_micros: u64,
    delta_micros: u64,
}

impl FrameClock {
    pub closed spec fn current(&self) -> nat {
        self.current_micros as nat
    }

    pub closed spec fn delta(&self) -> nat {
        self.delta_micros as nat
    }

    /// A clock that has not been updated: both values are zero.
    pub fn new() -> (r: FrameClock)
        ensures
            r.current() == 0,
            r.delta() == 0,
    {
        FrameClock { current_micros: 0, delta_micros: 0 }
    }

    /// Takes the time since launch, which never goes back, and returns it
    /// together with the time passed since the previous update (since launch,
    /// on the first update).
    pub fn update(&mut self, elapsed_micros: u64) -> (r: (u64, u64))
        requires
            elapsed_micros >= old(self).current(),
        ensures
            final(self).current() == elapsed_micros,
            final(self).delta() == elapsed_micros - old(self).current(),
            r == (final(self).current() as u64, final(self).delta() as u64),
    {
        self.delta_micros = elapsed_micros - self.current_micros;
        self.current_micros = elapsed_micros;
        (self.current_micros, self.delta_micros)
    }

    pub fn current_micros(&self) -> (r: u64)
        ensures
            r == self.current(),
    {
        self.current_micros
    }

    pub fn delta_micros(&self) -> (r: u64)
        ensures
            r == self.delta(),
    {
        self.delta_micros
    }
}

} // verus!
