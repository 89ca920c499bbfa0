//! Driving one dispatch round: working off every assignment of a plan
//! against a fresh completion tally, landing exactly on the expected total.

use crate::counter::CompletionCounter;
use crate::plan::RoundPlan;
use crate::plan::lemma_sum_of_prefix;
use crate::plan::sum_of;
use crate::worker::WorkerState;
use vstd::prelude::*;

verus! {

/// Lower bound, inclusive, of one work item's simulated delay.
pub const DELAY_LOW_MS: u64 = 100;

/// Upper bound, inclusive, of one work item's simulated delay.
pub const DELAY_HIGH_MS: u64 = 1000;

/// Work off one whole assignment against the shared tally: for each owed
/// work item, draw its randomized delay and add exactly one to the tally.
/// The tally grows by exactly the assignment, and every drawn delay lies in
/// the closed range `[delay_low, delay_high]`.
pub fn perform_assignment(
    assignment: u64,
    delay_low: u64,
    delay_high: u64,
    counter: &mut CompletionCounter,
) -> (delays: Vec<u64>)
    requires
        delay_low <= delay_high,
        old(counter).spec_count() + assignment <= u64::MAX,
    ensures
        final(counter).spec_count() == old(counter).spec_count() + assignment,
        delays@.len() == assignment,
        forall|i: int| 0 <= i < delays@.len() ==> delay_low <= #[trigger] delays@[i]
            <= delay_high,
{
    let ghost tally_at_start = counter.spec_count();
    let mut worker = WorkerState::new(assignment, delay_low, delay_high);
    let mut delays: Vec<u64> = Vec::new();
    while !worker.is_done()
        invariant
            worker.wf(),
            worker.assignment == assignment,
            worker.delay_low == delay_low,
            worker.delay_high == delay_high,
            delays@.len() == worker.started,
            forall|i: int| 0 <= i < delays@.len() ==> delay_low <= #[trigger] delays@[i]
                <= delay_high,
            counter.spec_count() == tally_at_start + worker.started,
            tally_at_start + assignment <= u64::MAX,
        decreases worker.assignment - worker.started,
    {
        if let Some(delay) = worker.next_work_item() {
            counter.increment();
            delays.push(delay);
        }
    }
    delays
}

/// Work off every assignment of one plan in turn against `counter`, which
/// must be the round's fresh zero-valued tally.  After the round the tally
/// equals the plan's expected total exactly — never more, never less.
pub fn run_round(plan: &RoundPlan, counter: &mut CompletionCounter)
    requires
        plan.wf(),
        old(counter).spec_count() == 0,
    ensures
        final(counter).spec_count() == plan.expected_total,
{
    let worker_total = plan.assignments.len();
    let mut next: usize = 0;
    while next < worker_total
        invariant
            plan.wf(),
            worker_total == plan.assignments@.len(),
            next <= worker_total,
            counter.spec_count() == sum_of(plan.assignments@.subrange(0, next as int)),
        decreases worker_total - next,
    {
        let assignment = plan.assignments[next];
        proof {
            assert(plan.assignments@.subrange(0, next + 1).drop_last() =~= plan.assignments@
                .subrange(0, next as int));
            assert(plan.assignments@.subrange(0, next + 1).last() == plan.assignments@[
                next as int]);
            lemma_sum_of_prefix(plan.assignments@, next + 1);
        }
        let _delays = perform_assignment(assignment, DELAY_LOW_MS, DELAY_HIGH_MS, counter);
        next = next + 1;
    }
    proof {
        assert(plan.assignments@.subrange(0, plan.assignments@.len() as int) =~= plan
            .assignments@);
    }
}

/// The data-parallel dispatch variant's progress semantics, stated over the
/// tally: its work items are a precomputed sequence of delays, each item's
/// processing adds exactly one to the shared tally, and when the whole
/// sequence has been processed the tally has grown by exactly the number of
/// items — which is why that variant needs no separate validation step.
pub fn process_delays(delays: &Vec<u64>, counter: &mut CompletionCounter)
    requires
        old(counter).spec_count() + delays@.len() <= u64::MAX,
    ensures
        final(counter).spec_count() == old(counter).spec_count() + delays@.len(),
{
    let ghost tally_at_start = counter.spec_count();
    let item_total = delays.len();
    let mut processed: usize = 0;
    while processed < item_total
        invariant
            item_total == delays@.len(),
            processed <= item_total,
            counter.spec_count() == tally_at_start + processed,
            tally_at_start + item_total <= u64::MAX,
        decreases item_total - processed,
    {
        counter.increment();
        processed = processed + 1;
    }
}

/// Round isolation: two rounds run one after the other, each on a fresh
/// zero-valued tally, land each on their own expected total.  Nothing of the
/// first round's tally leaks into the second round.
pub fn run_two_rounds(first: &RoundPlan, second: &RoundPlan) -> (totals: (u64, u64))
    requires
        first.wf(),
        second.wf(),
    ensures
        totals.0 == first.expected_total,
        totals.1 == second.expected_total,
{
    let mut first_counter = CompletionCounter::new();
    run_round(first, &mut first_counter);
    let first_total = first_counter.read();
    let mut second_counter = CompletionCounter::new();
    run_round(second, &mut second_counter);
    let second_total = second_counter.read();
    (first_total, second_total)
}

} // verus!
