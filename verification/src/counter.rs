//! The completion tally of one dispatch round.

use vstd::prelude::*;

verus! {

/// The shared completion tally of a dispatch round, modelled sequentially.
///
/// Every completed work item adds exactly one to the tally; nothing ever
/// subtracts from it, so within a round it is monotonically non-decreasing.
/// Each round starts from a fresh zero-valued counter.  In a live run the
/// tally is held in a process-wide atomic integer owned by the embedding
/// program; this type carries the same increment-and-read discipline where
/// the library drives a round itself.
pub struct CompletionCounter {
    count: u64,
}

impl CompletionCounter {
    /// The current tally.
    pub closed spec fn spec_count(self) -> u64 {
        self.count
    }

    /// A fresh counter for a new round, starting at zero.
    pub fn new() -> (c: CompletionCounter)
        ensures
            c.spec_count() == 0,
    {
        CompletionCounter { count: 0 }
    }

    /// Record one completed work item: the tally grows by exactly one.
    pub fn increment(&mut self)
        requires
            old(self).spec_count() < u64::MAX,
        ensures
            final(self).spec_count() == old(self).spec_count() + 1,
    {
        self.count = self.count + 1;
    }

    /// Read the current tally without changing it.
    pub fn read(&self) -> (n: u64)
        ensures
            n == self.spec_count(),
    {
        self.count
    }
}

} // verus!
