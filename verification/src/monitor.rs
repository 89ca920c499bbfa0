//! Polling progress observation: a monitor that repeatedly reads the shared
//! completion tally, renders a bounded position, and detects round
//! completion.

use vstd::prelude::*;

verus! {

/// The position a monitor renders for a tally of `seen` out of
/// `expected_total`: the tally itself, bounded above by the total.  A tally
/// past the total is never rendered as such; the overshoot is left for the
/// dispatcher's final validation to catch.
pub open spec fn render_position(seen: u64, expected_total: u64) -> u64 {
    if seen <= expected_total {
        seen
    } else {
        expected_total
    }
}

/// The decision core of the progress monitor.
///
/// The embedding program runs the polling loop itself — sleep one polling
/// interval, read the shared tally, hand the value to [`observe`], draw the
/// returned position, stop when completion is reported.  Detection latency
/// is therefore bounded by one polling interval: the first poll at or past
/// the expected total reports completion.
///
/// [`observe`]: ProgressMonitor::observe
pub struct ProgressMonitor {
    /// The round's expected total, fixed when the monitor is built.
    pub expected_total: u64,
    /// The tally value of the latest poll.
    pub last_seen: u64,
    /// The position rendered after the latest poll.
    pub position: u64,
}

impl ProgressMonitor {
    /// The rendered position always reflects the latest poll, bounded by the
    /// expected total.
    pub open spec fn wf(self) -> bool {
        self.position == render_position(self.last_seen, self.expected_total)
    }

    /// A monitor for a fresh round, before any work has completed.
    pub fn new(expected_total: u64) -> (monitor: ProgressMonitor)
        ensures
            monitor.wf(),
            monitor.expected_total == expected_total,
            monitor.last_seen == 0,
            monitor.position == 0,
    {
        ProgressMonitor { expected_total, last_seen: 0, position: 0 }
    }

    /// One poll: record the tally value `seen` just read from the shared
    /// counter, move the rendered position, and report whether the round is
    /// complete.
    ///
    /// The tally only ever grows within a round, so a poll never reads a
    /// smaller value than the poll before it; under that condition the
    /// rendered position never decreases between consecutive polls, never
    /// exceeds the expected total, and completion is reported exactly when
    /// the tally has reached the expected total.
    pub fn observe(&mut self, seen: u64) -> (complete: bool)
        requires
            old(self).wf(),
            seen >= old(self).last_seen,
        ensures
            final(self).wf(),
            final(self).expected_total == old(self).expected_total,
            final(self).last_seen == seen,
            final(self).position == render_position(seen, old(self).expected_total),
            final(self).position >= old(self).position,
            final(self).position <= final(self).expected_total,
            complete == (seen >= old(self).expected_total),
    {
        self.last_seen = seen;
        self.position = if seen <= self.expected_total {
            seen
        } else {
            self.expected_total
        };
        seen >= self.expected_total
    }
}

} // verus!
