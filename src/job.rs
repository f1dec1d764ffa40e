//! One unit of work: a deterministic transform of its input, run after a
//! latency that is drawn at random.

use rand::Rng;
use vstd::prelude::*;

verus! {

/// The least latency, in seconds, that a job waits before it finishes.
pub const MIN_LATENCY_SECS: u64 = 1;

/// The bound, in seconds and exclusive, on the latency of a job.
pub const MAX_LATENCY_SECS: u64 = 5;

/// The value a job produces for its input.
pub open spec fn job_value(input: int) -> int {
    2 * input
}

/// Whether the value of a job on `input` fits in an `i32`.
pub open spec fn job_fits(input: int) -> bool {
    i32::MIN <= job_value(input) <= i32::MAX
}

/// A job ready to run: the value it yields, and how long it waits first.
pub struct Job {
    pub input: i32,
    pub value: i32,
    pub latency_secs: u64,
}

/// Computes the value of a job.
pub fn transform(input: i32) -> (r: i32)
    requires
        job_fits(input as int),
    ensures
        r as int == job_value(input as int),
{
    input * 2
}

/// Relies on rand's `Rng::gen_range` on the thread-local generator: a value in
/// `[low, high)`, and a panic only where `low >= high`.
#[verifier::external_body]
fn draw_in_range(low: u64, high: u64) -> (r: u64)
    requires
        low < high,
    ensures
        low <= r < high,
{
    rand::thread_rng().gen_range(low, high)
}

/// A job on `input` that waits `latency_secs` before it yields its value.
pub fn job_with_latency(input: i32, latency_secs: u64) -> (r: Job)
    requires
        job_fits(input as int),
    ensures
        r.input == input,
        r.value as int == job_value(input as int),
        r.latency_secs == latency_secs,
{
    Job { input, value: transform(input), latency_secs }
}

/// A job on `input` whose latency is drawn at random.
pub fn run_job(input: i32) -> (r: Job)
    requires
        job_fits(input as int),
    ensures
        r.input == input,
        r.value as int == job_value(input as int),
        MIN_LATENCY_SECS <= r.latency_secs < MAX_LATENCY_SECS,
{
    let latency = draw_in_range(MIN_LATENCY_SECS, MAX_LATENCY_SECS);
    job_with_latency(input, latency)
}

} // verus!
