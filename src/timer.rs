//! A countdown timer measured in whole nanoseconds.
//!
//! It follows the semantics of the engine's frame timer: a one-shot timer
//! stops at its duration and stays finished until it is reset; a repeating
//! timer wraps around and counts how many periods ended during one tick.
use vstd::prelude::*;

verus! {

pub const NANOS_PER_MILLI: u64 = 1_000_000;

pub const NANOS_PER_SEC: u64 = 1_000_000_000;

#[derive(Debug, Clone, Copy, PartialEq, Eq, Structural)]
pub struct Timer {
    /// Time accumulated since the last reset, in nanoseconds.
    pub elapsed: u64,
    /// Length of one period, in nanoseconds.
    pub duration: u64,
    pub repeating: bool,
    pub finished: bool,
    /// How many periods ended during the last tick.
    pub times_finished: u64,
}

impl Timer {
    /// A timer that has not started counting yet.
    pub open spec fn fresh(duration: u64, repeating: bool) -> Timer {
        Timer { elapsed: 0, duration, repeating, finished: false, times_finished: 0 }
    }

    /// The timer after `delta` more nanoseconds have passed.
    pub open spec fn ticked(self, delta: u64) -> Timer {
        if !self.repeating && self.finished {
            Timer { times_finished: 0, ..self }
        } else {
            let total = if self.elapsed + delta > u64::MAX {
                u64::MAX
            } else {
                (self.elapsed + delta) as u64
            };
            if total < self.duration {
                Timer { elapsed: total, finished: false, times_finished: 0, ..self }
            } else if self.repeating {
                Timer {
                    elapsed: (total % self.duration) as u64,
                    finished: true,
                    times_finished: (total / self.duration) as u64,
                    ..self
                }
            } else {
                Timer { elapsed: self.duration, finished: true, times_finished: 1, ..self }
            }
        }
    }

    /// The timer restarted from zero, keeping its duration and mode.
    pub open spec fn restarted(self) -> Timer {
        Timer { elapsed: 0, finished: false, times_finished: 0, ..self }
    }

    /// Whether the fraction of the period still left is above `quarters / 4`.
    pub open spec fn left_above_quarters(self, quarters: u64) -> bool {
        4 * (self.duration - self.elapsed) > quarters * self.duration
    }

    pub fn new(duration: u64, repeating: bool) -> (r: Timer)
        ensures
            r == Timer::fresh(duration, repeating),
    {
        Timer { elapsed: 0, duration, repeating, finished: false, times_finished: 0 }
    }

    /// Advances the timer by `delta` nanoseconds. The elapsed time saturates
    /// at `u64::MAX` nanoseconds (more than five centuries).
    pub fn tick(&mut self, delta: u64)
        requires
            old(self).repeating ==> old(self).duration > 0,
        ensures
            *final(self) == old(self).ticked(delta),
    {
        if !self.repeating && self.finished {
            self.times_finished = 0;
            return ;
        }
        let total = self.elapsed.saturating_add(delta);
        if total < self.duration {
            self.elapsed = total;
            self.finished = false;
            self.times_finished = 0;
        } else if self.repeating {
            self.elapsed = total % self.duration;
            self.finished = true;
            self.times_finished = total / self.duration;
        } else {
            self.elapsed = self.duration;
            self.finished = true;
            self.times_finished = 1;
        }
    }

    pub fn reset(&mut self)
        ensures
            *final(self) == old(self).restarted(),
    {
        self.elapsed = 0;
        self.finished = false;
        self.times_finished = 0;
    }

    pub fn finished(&self) -> (r: bool)
        ensures
            r == self.finished,
    {
        self.finished
    }

    /// Whether at least one period ended during the last tick.
    pub fn just_finished(&self) -> (r: bool)
        ensures
            r == (self.times_finished > 0),
    {
        self.times_finished > 0
    }

    /// Whether more than `quarters / 4` of the period is still to run.
    /// A timer of zero duration has nothing left.
    pub fn left_above(&self, quarters: u64) -> (r: bool)
        ensures
            r == self.left_above_quarters(quarters),
    {
        if self.elapsed > self.duration {
            return false;
        }
        let left = (self.duration - self.elapsed) as u128;
        let whole = self.duration as u128;
        let q = quarters as u128;
        assert(4 * left <= 4 * 0xffff_ffff_ffff_ffffu128);
        assert(q * whole <= 0xffff_ffff_ffff_ffffu128 * 0xffff_ffff_ffff_ffffu128) by (nonlinear_arith)
            requires
                q <= 0xffff_ffff_ffff_ffffu128,
                whole <= 0xffff_ffff_ffff_ffffu128,
        ;
        4 * left > q * whole
    }
}

} // verus!
