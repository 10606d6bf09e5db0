//! Elapsed-time bookkeeping in whole milliseconds: a repeating countdown timer
//! and a stopwatch.
use vstd::prelude::*;

verus! {

/// A timer that finishes each time its duration has elapsed and then starts over,
/// keeping the time that ran past the end.
#[derive(Clone, Copy, Debug, PartialEq, Eq, Structural)]
pub struct RepeatingTimer {
    pub duration_ms: u64,
    pub elapsed_ms: u64,
    pub finished: bool,
}

impl RepeatingTimer {
    pub open spec fn wf(self) -> bool {
        self.duration_ms > 0 && self.elapsed_ms < self.duration_ms
    }

    pub fn new(duration_ms: u64) -> (r: RepeatingTimer)
        requires
            duration_ms > 0,
        ensures
            r.wf(),
            r.duration_ms == duration_ms,
            r.elapsed_ms == 0,
            !r.finished,
    {
        RepeatingTimer { duration_ms, elapsed_ms: 0, finished: false }
    }

    /// Advances the timer by `delta_ms`. It is finished for this tick exactly when
    /// the elapsed time reached the duration, and then keeps the remainder.
    pub fn tick(&mut self, delta_ms: u64)
        requires
            old(self).wf(),
        ensures
            final(self).wf(),
            final(self).duration_ms == old(self).duration_ms,
            final(self).finished == (old(self).elapsed_ms + delta_ms >= old(self).duration_ms),
            final(self).elapsed_ms == (old(self).elapsed_ms + delta_ms) % (
            old(self).duration_ms as int),
    {
        let left = self.duration_ms - self.elapsed_ms;
        if delta_ms >= left {
            let over = delta_ms - left;
            self.elapsed_ms = over % self.duration_ms;
            self.finished = true;
            proof {
                let e = old(self).elapsed_ms as int + delta_ms as int;
                let d = self.duration_ms as int;
                assert(e == over + d);
                vstd::arithmetic::div_mod::lemma_mod_add_multiples_vanish(over as int, d);
            }
        } else {
            self.elapsed_ms = self.elapsed_ms + delta_ms;
            self.finished = false;
            proof {
                vstd::arithmetic::div_mod::lemma_small_mod(
                    self.elapsed_ms as nat,
                    self.duration_ms as nat,
                );
            }
        }
    }

    pub fn finished(&self) -> (r: bool)
        ensures
            r == self.finished,
    {
        self.finished
    }
}

/// Counts the time elapsed since it was started or last reset.
#[derive(Clone, Copy, Debug, PartialEq, Eq, Structural)]
pub struct Stopwatch {
    pub elapsed_ms: u64,
}

impl Stopwatch {
    pub fn new() -> (r: Stopwatch)
        ensures
            r.elapsed_ms == 0,
    {
        Stopwatch { elapsed_ms: 0 }
    }

    /// Adds `delta_ms`, stopping at the largest representable time.
    pub fn tick(&mut self, delta_ms: u64)
        ensures
            final(self).elapsed_ms == if old(self).elapsed_ms + delta_ms <= u64::MAX {
                old(self).elapsed_ms + delta_ms
            } else {
                u64::MAX as int
            },
    {
        self.elapsed_ms = self.elapsed_ms.saturating_add(delta_ms);
    }

    pub fn reset(&mut self)
        ensures
            final(self).elapsed_ms == 0,
    {
        self.elapsed_ms = 0;
    }

    pub fn elapsed(&self) -> (r: u64)
        ensures
            r == self.elapsed_ms,
    {
        self.elapsed_ms
    }
}

} // verus!
