use vstd::prelude::*;

verus! {

/// Most samples a simulated time response holds.
pub const MAX_SAMPLES: usize = 3000;

/// Fewest samples a simulated time response holds.
pub const MIN_SAMPLES: usize = 3;

/// Number of samples of a time response that needs `steps` integration steps at the
/// nominal step width: one more than the steps, but no more than 3000 and no fewer
/// than 3.
pub open spec fn sample_count_spec(steps: int) -> int {
    let n = if steps + 1 < MAX_SAMPLES { steps + 1 } else { MAX_SAMPLES as int };
    if n < MIN_SAMPLES {
        MIN_SAMPLES as int
    } else {
        n
    }
}

/// The number of samples, including the start, of a simulated time response that
/// needs `steps` steps of the nominal width to reach its end time.
pub fn response_sample_count(steps: usize) -> (n: usize)
    requires
        steps < usize::MAX,
    ensures
        n == sample_count_spec(steps as int),
        MIN_SAMPLES <= n <= MAX_SAMPLES,
{
    let n = if steps + 1 < MAX_SAMPLES { steps + 1 } else { MAX_SAMPLES };
    if n < MIN_SAMPLES {
        MIN_SAMPLES
    } else {
        n
    }
}

} // verus!
