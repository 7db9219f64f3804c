//! Timing a run: the caller reads a monotonic clock and records the start and
//! end ticks; the speed ratio of two runs clamps a sub-resolution elapsed
//! time to one tick rather than divide by zero.

use vstd::prelude::*;

verus! {

/// Start and end of one timed run, in clock ticks supplied by the caller.
#[derive(Clone, Copy, PartialEq, Eq, Structural, Debug)]
pub struct RunTiming {
    pub initialization: u128,
    pub completion: u128,
}

impl RunTiming {
    /// The ticks the run took.
    pub open spec fn elapsed(self) -> int {
        self.completion - self.initialization
    }

    /// The elapsed ticks, never below one: a run faster than the clock's
    /// resolution counts as one tick.
    pub open spec fn elapsed_clamped(self) -> int {
        if self.elapsed() < 1 {
            1
        } else {
            self.elapsed()
        }
    }

    /// Record the start of the run.
    pub fn set_init(&mut self, now: u128)
        ensures
            final(self).initialization == now,
            final(self).completion == old(self).completion,
    {
        self.initialization = now;
    }

    /// Record the end of the run.
    pub fn set_complete(&mut self, now: u128)
        ensures
            final(self).completion == now,
            final(self).initialization == old(self).initialization,
    {
        self.completion = now;
    }
}

impl Default for RunTiming {
    /// A timing with both marks at tick zero.
    fn default() -> (t: RunTiming)
        ensures
            t.initialization == 0,
            t.completion == 0,
    {
        RunTiming { initialization: 0, completion: 0 }
    }
}

/// How many times faster run `b` was than run `a`: the (truncated) quotient
/// of their clamped elapsed times, returned with the two elapsed times
/// themselves.
pub fn speed_ratio(a: &RunTiming, b: &RunTiming) -> (r: (u128, u128, u128))
    requires
        a.initialization <= a.completion,
        b.initialization <= b.completion,
    ensures
        r.0 == a.elapsed_clamped() / b.elapsed_clamped(),
        r.1 == a.elapsed_clamped(),
        r.2 == b.elapsed_clamped(),
{
    let ac = a.completion - a.initialization;
    let bc = b.completion - b.initialization;
    let ac = if ac < 1 {
        1
    } else {
        ac
    };
    let bc = if bc < 1 {
        1
    } else {
        bc
    };
    (ac / bc, ac, bc)
}

} // verus!
