//! The integrator's sampling grid: a fixed sixty-second step, with the time
//! axis reported in days. This module fixes the grid in whole seconds, where
//! the step arithmetic is exact.

use vstd::prelude::*;
use vstd::arithmetic::div_mod::lemma_fundamental_div_mod;

verus! {

/// Length of one integration step, in seconds.
pub const STEP_SECONDS: u64 = 60;

/// Seconds in one day: the time axis is reported in days.
pub const SECONDS_PER_DAY: u64 = 86400;

/// Time of sample `i` on a grid that starts at `start_seconds`, in seconds.
pub open spec fn sample_time(start_seconds: u64, i: nat) -> int {
    start_seconds + i * STEP_SECONDS
}

/// How many samples the integrator records over `[start_seconds,
/// end_seconds]`: the loop admits the start point itself and then one point
/// per full step, so a zero-length window still yields one sample. A reversed
/// window yields none.
pub open spec fn sample_count_spec(start_seconds: u64, end_seconds: u64) -> nat {
    if start_seconds <= end_seconds {
        ((end_seconds - start_seconds) / (STEP_SECONDS as int) + 1) as nat
    } else {
        0
    }
}

/// Number of samples the integrator records over `[start_seconds,
/// end_seconds]`.
pub fn sample_count(start_seconds: u64, end_seconds: u64) -> (n: u64)
    ensures
        n == sample_count_spec(start_seconds, end_seconds),
{
    if start_seconds <= end_seconds {
        (end_seconds - start_seconds) / STEP_SECONDS + 1
    } else {
        0
    }
}

/// The grid itself: every sample time over `[start_seconds, end_seconds]`, in
/// order, spaced by exactly one step.
pub fn sample_times(start_seconds: u64, end_seconds: u64) -> (r: Vec<u64>)
    ensures
        r@.len() == sample_count_spec(start_seconds, end_seconds),
        forall|i: int| 0 <= i < r@.len() ==> r@[i] == sample_time(start_seconds, i as nat),
{
    let mut r: Vec<u64> = Vec::new();
    if start_seconds > end_seconds {
        return r;
    }
    let n: u64 = (end_seconds - start_seconds) / STEP_SECONDS + 1;
    let mut i: u64 = 0;
    while i < n
        invariant
            start_seconds <= end_seconds,
            n == sample_count_spec(start_seconds, end_seconds),
            i <= n,
            r@.len() == i,
            forall|j: int| 0 <= j < i ==> r@[j] == sample_time(start_seconds, j as nat),
        decreases n - i,
    {
        proof {
            let d = (end_seconds - start_seconds) as int;
            lemma_fundamental_div_mod(d, STEP_SECONDS as int);
            assert(i * STEP_SECONDS <= (d / (STEP_SECONDS as int)) * STEP_SECONDS)
                by (nonlinear_arith)
                requires
                    i as int <= d / (STEP_SECONDS as int),
            ;
        }
        r.push(start_seconds + i * STEP_SECONDS);
        i = i + 1;
    }
    r
}

/// The time axis advances by exactly one step between consecutive samples.
pub proof fn lemma_uniform_spacing(start_seconds: u64, i: nat)
    ensures
        sample_time(start_seconds, i + 1) - sample_time(start_seconds, i) == STEP_SECONDS,
{
    assert((i + 1) * STEP_SECONDS == i * STEP_SECONDS + STEP_SECONDS) by (nonlinear_arith);
}

/// A zero-length window still records exactly one sample: the loop admits the
/// start point once before the time moves past the end.
pub proof fn lemma_zero_duration_single_sample(start_seconds: u64)
    ensures
        sample_count_spec(start_seconds, start_seconds) == 1,
{
}

} // verus!
