//! Randomized work quantities: counts of work items and delay durations,
//! drawn from closed bounded uniform ranges.

use rand::distributions::Distribution;
use rand::distributions::Uniform;
use vstd::prelude::*;

verus! {

/// Draw one value from the closed range `[low, high]`, both ends included.
///
/// Relies on rand's `Uniform::new_inclusive` and `Distribution::sample` over
/// a fresh `thread_rng`: for `low <= high` the sampler is built without
/// panicking and every value it yields lies in `[low, high]`.  Nothing more
/// is promised of the draw; two calls with the same bounds may disagree.
#[verifier::external_body]
pub fn sample_inclusive(low: u64, high: u64) -> (value: u64)
    requires
        low <= high,
    ensures
        low <= value <= high,
{
    let mut rng = rand::thread_rng();
    Uniform::new_inclusive(low, high).sample(&mut rng)
}

/// Draw `count` independent values, each from the closed range `[low, high]`.
///
/// This is the eagerly materialized prefix of the generator's unbounded
/// sequence: the data-parallel dispatch variant precomputes all of its delay
/// durations this way before any work starts.
pub fn sample_many(count: usize, low: u64, high: u64) -> (values: Vec<u64>)
    requires
        low <= high,
    ensures
        values@.len() == count,
        forall|i: int| 0 <= i < count ==> low <= #[trigger] values@[i] <= high,
{
    let mut values: Vec<u64> = Vec::new();
    let mut drawn: usize = 0;
    while drawn < count
        invariant
            low <= high,
            drawn <= count,
            values@.len() == drawn,
            forall|i: int| 0 <= i < drawn ==> low <= #[trigger] values@[i] <= high,
        decreases count - drawn,
    {
        let value = sample_inclusive(low, high);
        values.push(value);
        drawn = drawn + 1;
    }
    values
}

} // verus!
