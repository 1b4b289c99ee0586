//! Bounded polling: the countdown that every register wait of the USB
//! drivers runs, with the condition read by the caller between steps.

use vstd::prelude::*;

verus! {

/// Polls granted to a register wait.
pub const POLL_BUDGET: u32 = 100000;

/// What a wait does after one reading of its condition.
#[derive(PartialEq, Eq, Structural, Debug, Clone, Copy)]
pub enum PollStep {
    /// The condition held: the wait is over.
    Done,
    /// Read the condition again.
    Retry,
    /// The budget ran out before the condition held.
    TimedOut,
}

/// A register wait: the number of readings it may still make.
pub struct Poll {
    pub remaining: u32,
}

impl Poll {
    /// A wait with the standard budget.
    pub fn new() -> (r: Self)
        ensures
            r.remaining == POLL_BUDGET,
    {
        Poll { remaining: POLL_BUDGET }
    }

    /// A wait with `budget` readings.
    pub fn with_budget(budget: u32) -> (r: Self)
        ensures
            r.remaining == budget,
    {
        Poll { remaining: budget }
    }

    /// One reading of the condition. A wait with no reading left has
    /// timed out; a reading that meets the condition ends the wait with the
    /// count unchanged; any other reading spends one count, and the wait
    /// times out when the count reaches zero.
    pub fn step(&mut self, condition_met: bool) -> (r: PollStep)
        ensures
            old(self).remaining == 0 ==> r == PollStep::TimedOut && final(self).remaining == 0,
            old(self).remaining > 0 && condition_met ==> r == PollStep::Done && final(self).remaining
                == old(self).remaining,
            old(self).remaining > 0 && !condition_met ==> final(self).remaining == old(self).remaining - 1
                && r == (if final(self).remaining == 0 { PollStep::TimedOut } else { PollStep::Retry }),
    {
        if self.remaining == 0 {
            return PollStep::TimedOut;
        }
        if condition_met {
            return PollStep::Done;
        }
        self.remaining = self.remaining - 1;
        if self.remaining == 0 {
            PollStep::TimedOut
        } else {
            PollStep::Retry
        }
    }

    /// Whether the wait ran out of readings.
    pub fn timed_out(&self) -> (r: bool)
        ensures
            r == (self.remaining == 0),
    {
        self.remaining == 0
    }
}

} // verus!
