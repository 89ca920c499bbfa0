//! Planning one dispatch round: per-worker work assignments and the expected
//! total, fixed before any worker starts.

use crate::sampling::sample_inclusive;
use vstd::arithmetic::div_mod::lemma_fundamental_div_mod;
use vstd::prelude::*;

verus! {

/// The sum of a sequence of work assignments.
pub open spec fn sum_of(s: Seq<u64>) -> int
    decreases s.len(),
{
    if s.len() == 0 {
        0
    } else {
        sum_of(s.drop_last()) + s.last()
    }
}

/// Appending one assignment adds exactly that assignment to the sum.
pub proof fn lemma_sum_of_push(s: Seq<u64>, x: u64)
    ensures
        sum_of(s.push(x)) == sum_of(s) + x,
{
    assert(s.push(x).drop_last() =~= s);
}

/// A prefix of the assignments never sums past the whole round.
pub proof fn lemma_sum_of_prefix(s: Seq<u64>, i: int)
    requires
        0 <= i <= s.len(),
    ensures
        sum_of(s.subrange(0, i)) <= sum_of(s),
    decreases s.len() - i,
{
    if i == s.len() {
        assert(s.subrange(0, i) =~= s);
    } else {
        assert(s.subrange(0, i + 1).drop_last() =~= s.subrange(0, i));
        assert(s.subrange(0, i + 1).last() == s[i]);
        lemma_sum_of_prefix(s, i + 1);
    }
}

/// One dispatch round, planned in full before any worker starts: the
/// per-worker work assignments and their sum, the round's expected total.
pub struct RoundPlan {
    /// How many work items each worker owes; one entry per worker.
    pub assignments: Vec<u64>,
    /// The sum of all assignments, computed up front.
    pub expected_total: u64,
}

impl RoundPlan {
    /// The plan is coherent: the recorded expected total really is the sum
    /// of the per-worker assignments.
    pub open spec fn wf(self) -> bool {
        self.expected_total as int == sum_of(self.assignments@)
    }
}

/// Plan a round that divides `total` work items over `workers` workers as
/// evenly as integer division allows.  The division's remainder is assigned
/// to the last worker, so the round's expected total is exactly `total`:
/// no work item is silently dropped when the division is uneven.
pub fn even_plan(total: u64, workers: usize) -> (plan: RoundPlan)
    requires
        workers >= 1,
    ensures
        plan.wf(),
        plan.assignments@.len() == workers,
        plan.expected_total == total,
        forall|i: int| 0 <= i < workers - 1 ==> #[trigger] plan.assignments@[i] == total / (
        workers as u64),
        plan.assignments@[workers - 1] == total / (workers as u64) + total % (workers as u64),
{
    let w = workers as u64;
    let per_worker = total / w;
    let remainder = total % w;
    proof {
        lemma_fundamental_div_mod(total as int, w as int);
        assert(per_worker + remainder <= total) by (nonlinear_arith)
            requires
                w >= 1,
                per_worker >= 0,
                remainder >= 0,
                total == w * per_worker + remainder,
        ;
    }
    let mut assignments: Vec<u64> = Vec::new();
    let mut filled: usize = 0;
    while filled < workers - 1
        invariant
            workers >= 1,
            filled <= workers - 1,
            assignments@.len() == filled,
            forall|i: int| 0 <= i < filled ==> #[trigger] assignments@[i] == per_worker,
            sum_of(assignments@) == filled as int * per_worker as int,
        decreases workers - 1 - filled,
    {
        proof {
            lemma_sum_of_push(assignments@, per_worker);
            assert((filled as int + 1) * per_worker as int == filled as int * per_worker as int
                + per_worker as int) by (nonlinear_arith);
        }
        assignments.push(per_worker);
        filled = filled + 1;
    }
    proof {
        lemma_sum_of_push(assignments@, (per_worker + remainder) as u64);
        lemma_fundamental_div_mod(total as int, w as int);
        assert((workers - 1) as int * per_worker as int + (per_worker as int + remainder as int)
            == w as int * per_worker as int + remainder as int) by (nonlinear_arith)
            requires
                w == workers as u64,
                workers >= 1,
        ;
    }
    assignments.push(per_worker + remainder);
    RoundPlan { assignments, expected_total: total }
}

/// Plan a round of `workers` workers whose assignments are drawn
/// independently from the closed range `[low, high]`; the expected total is
/// the sum of the draws, fixed before any worker starts.
pub fn sampled_plan(workers: usize, low: u64, high: u64) -> (plan: RoundPlan)
    requires
        low <= high,
        workers as int * high as int <= u64::MAX as int,
    ensures
        plan.wf(),
        plan.assignments@.len() == workers,
        forall|i: int| 0 <= i < workers ==> low <= #[trigger] plan.assignments@[i] <= high,
        workers as int * low as int <= plan.expected_total as int <= workers as int
            * high as int,
{
    let mut assignments: Vec<u64> = Vec::new();
    let mut running_total: u64 = 0;
    let mut drawn: usize = 0;
    while drawn < workers
        invariant
            low <= high,
            drawn <= workers,
            workers as int * high as int <= u64::MAX as int,
            assignments@.len() == drawn,
            forall|i: int| 0 <= i < drawn ==> low <= #[trigger] assignments@[i] <= high,
            running_total as int == sum_of(assignments@),
            drawn as int * low as int <= running_total as int <= drawn as int * high as int,
        decreases workers - drawn,
    {
        let assignment = sample_inclusive(low, high);
        proof {
            lemma_sum_of_push(assignments@, assignment);
            assert((drawn as int + 1) * low as int == drawn as int * low as int + low as int)
                by (nonlinear_arith);
            assert((drawn as int + 1) * high as int == drawn as int * high as int
                + high as int) by (nonlinear_arith);
            assert((drawn as int + 1) * high as int <= workers as int * high as int)
                by (nonlinear_arith)
                requires
                    drawn as int + 1 <= workers as int,
                    high as int >= 0,
            ;
        }
        running_total = running_total + assignment;
        assignments.push(assignment);
        drawn = drawn + 1;
    }
    RoundPlan { assignments, expected_total: running_total }
}

/// The dispatcher's final validation: a round is valid exactly when the
/// observed final tally equals the expected total.  A mismatch signals a
/// lost or duplicated increment and is fatal to the embedding program.
pub fn round_is_valid(expected_total: u64, observed_total: u64) -> (valid: bool)
    ensures
        valid == (observed_total == expected_total),
{
    observed_total == expected_total
}

} // verus!
