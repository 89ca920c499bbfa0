//! One worker's progress through its assignment, as a step-by-step state
//! machine.

use crate::sampling::sample_inclusive;
use vstd::prelude::*;

verus! {

/// The state of one worker working off its assignment.
///
/// A worker owes a fixed count of work items; each item is a randomized
/// delay followed by one increment of the shared completion tally.  The
/// embedding program drives the machine: it asks for the next work item,
/// sleeps for the returned delay, increments the shared tally, and repeats
/// until no item is left.  A worker never gives up early and never does more
/// than its assignment.
pub struct WorkerState {
    /// How many work items this worker owes in total.
    pub assignment: u64,
    /// How many work items this worker has begun so far.
    pub started: u64,
    /// Lower bound, inclusive, of each item's randomized delay.
    pub delay_low: u64,
    /// Upper bound, inclusive, of each item's randomized delay.
    pub delay_high: u64,
}

impl WorkerState {
    /// A worker never starts more items than its assignment, and its delay
    /// range is a real closed range.
    pub open spec fn wf(self) -> bool {
        &&& self.started <= self.assignment
        &&& self.delay_low <= self.delay_high
    }

    /// A fresh worker that owes `assignment` work items, drawing each item's
    /// delay from the closed range `[delay_low, delay_high]`.
    pub fn new(assignment: u64, delay_low: u64, delay_high: u64) -> (worker: WorkerState)
        requires
            delay_low <= delay_high,
        ensures
            worker.wf(),
            worker.assignment == assignment,
            worker.started == 0,
            worker.delay_low == delay_low,
            worker.delay_high == delay_high,
    {
        WorkerState { assignment, started: 0, delay_low, delay_high }
    }

    /// Whether the worker has begun every item of its assignment.
    pub fn is_done(&self) -> (done: bool)
        ensures
            done == (self.started == self.assignment),
    {
        self.started == self.assignment
    }

    /// Begin the next work item, if one is left: draw its randomized delay
    /// and count the item as started.  The caller sleeps for the returned
    /// delay and then increments the shared completion tally by exactly one.
    /// Once the assignment is exhausted the state no longer changes and no
    /// delay is returned.
    pub fn next_work_item(&mut self) -> (delay: Option<u64>)
        requires
            old(self).wf(),
        ensures
            final(self).wf(),
            final(self).assignment == old(self).assignment,
            final(self).delay_low == old(self).delay_low,
            final(self).delay_high == old(self).delay_high,
            old(self).started < old(self).assignment ==> {
                &&& final(self).started == old(self).started + 1
                &&& delay matches Some(d) && old(self).delay_low <= d <= old(self).delay_high
            },
            old(self).started == old(self).assignment ==> {
                &&& final(self).started == old(self).started
                &&& delay is None
            },
    {
        if self.started < self.assignment {
            let delay = sample_inclusive(self.delay_low, self.delay_high);
            self.started = self.started + 1;
            Some(delay)
        } else {
            None
        }
    }
}

} // verus!
