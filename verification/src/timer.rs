//! A periodic tick timer advanced by explicit elapsed-time deltas.
//!
//! Every time-gated component carries one: it accumulates the wall-clock
//! deltas handed to its `update`, becomes ready once the fixed interval has
//! been reached, and is reset by its owner after a ready tick. Advancement is
//! a pure function of the deltas, independent of scheduling jitter.

use vstd::prelude::*;

verus! {

/// An accumulating timer with a fixed ready-interval, in milliseconds.
#[derive(Clone, Copy, PartialEq, Eq, Structural, Debug)]
pub struct Timer {
    pub interval_ms: u64,
    pub elapsed_ms: u64,
}

/// Whether a timer has accumulated its full interval.
pub open spec fn timer_ready(t: Timer) -> bool {
    t.elapsed_ms >= t.interval_ms
}

/// The timer after one advancement by `delta_ms`: accumulated time grows by
/// the delta, saturating at the interval (once ready, further deltas change
/// nothing until a reset).
pub open spec fn timer_step(t: Timer, delta_ms: u64) -> Timer {
    if t.elapsed_ms + delta_ms >= t.interval_ms {
        Timer { interval_ms: t.interval_ms, elapsed_ms: t.interval_ms }
    } else {
        Timer { interval_ms: t.interval_ms, elapsed_ms: (t.elapsed_ms + delta_ms) as u64 }
    }
}

impl Timer {
    /// A fresh, not-yet-ready timer with the given interval.
    pub fn from_millis(interval_ms: u64) -> (t: Timer)
        ensures
            t == (Timer { interval_ms, elapsed_ms: 0u64 }),
    {
        Timer { interval_ms, elapsed_ms: 0 }
    }

    /// Advances the timer by an elapsed-time delta.
    pub fn update(&mut self, delta_ms: u64)
        ensures
            *final(self) == timer_step(*old(self), delta_ms),
    {
        if delta_ms >= self.interval_ms {
            self.elapsed_ms = self.interval_ms;
        } else if self.elapsed_ms >= self.interval_ms - delta_ms {
            self.elapsed_ms = self.interval_ms;
        } else {
            self.elapsed_ms = self.elapsed_ms + delta_ms;
        }
    }

    /// Whether the interval has been reached.
    pub fn ready(&self) -> (r: bool)
        ensures
            r == timer_ready(*self),
    {
        self.elapsed_ms >= self.interval_ms
    }

    /// Starts a new period: clears the accumulated time, keeps the interval.
    pub fn reset(&mut self)
        ensures
            *final(self) == (Timer { interval_ms: old(self).interval_ms, elapsed_ms: 0u64 }),
    {
        self.elapsed_ms = 0;
    }
}

} // verus!
