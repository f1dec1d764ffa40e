//! Batch requests and the progress events that the worker pool emits for them.

use crate::job::{job_fits, job_value, job_with_latency};
use vstd::prelude::*;

verus! {

/// A request to run `count` jobs, on the inputs `0..count`, and to report each
/// finished job to `subscriber_id` if there is one.
#[derive(Clone, Copy, Debug, PartialEq, Eq, Structural)]
pub struct BatchRequest {
    pub count: i32,
    pub subscriber_id: Option<u64>,
}

/// The report of one finished job, addressed to a subscriber.
#[derive(Clone, Copy, Debug, PartialEq, Eq, Structural)]
pub struct ProgressEvent {
    pub value: i32,
    pub subscriber_id: u64,
}

/// The number of jobs in a batch of `count`: none where `count` is not positive.
pub open spec fn batch_len(count: int) -> nat {
    if count <= 0 {
        0
    } else {
        count as nat
    }
}

/// Whether every job of the batch yields a value that fits in an `i32`.
pub open spec fn batch_fits(req: BatchRequest) -> bool {
    req.count <= 0 || job_fits(req.count - 1)
}

/// The event for the job on input `k` of a batch addressed to `id`.
pub open spec fn event_of(id: u64, k: int) -> ProgressEvent {
    ProgressEvent { value: job_value(k) as i32, subscriber_id: id }
}

/// The events of a batch, listed by input: one per job where the batch has a
/// subscriber, none where it has not.
pub open spec fn batch_events(req: BatchRequest) -> Seq<ProgressEvent> {
    match req.subscriber_id {
        None => Seq::empty(),
        Some(id) => Seq::new(batch_len(req.count as int), |k: int| event_of(id, k)),
    }
}

/// What a finished job with `value` reports for the batch `req`.
pub open spec fn event_for_value(req: BatchRequest, value: i32) -> Option<ProgressEvent> {
    match req.subscriber_id {
        None => None,
        Some(id) => Some(ProgressEvent { value, subscriber_id: id }),
    }
}

impl BatchRequest {
    /// A batch of `count` jobs, reported to `subscriber_id` if there is one.
    pub fn new(count: i32, subscriber_id: Option<u64>) -> (r: Self)
        ensures
            r.count == count,
            r.subscriber_id == subscriber_id,
    {
        BatchRequest { count, subscriber_id }
    }

    /// The inputs of the batch's jobs: `0..count`.
    pub fn inputs(&self) -> (r: Vec<i32>)
        ensures
            r@ == Seq::new(batch_len(self.count as int), |k: int| k as i32),
    {
        let mut r: Vec<i32> = Vec::new();
        let mut i: i32 = 0;
        while i < self.count
            invariant
                0 <= i,
                self.count <= 0 ==> i == 0,
                self.count > 0 ==> i <= self.count,
                r@ =~= Seq::new(i as nat, |k: int| k as i32),
            decreases self.count - i,
        {
            r.push(i);
            i = i + 1;
        }
        r
    }

    /// The event that a finished job with `value` emits: none where the batch
    /// has no subscriber, in which case the value is discarded.
    pub fn event_for(&self, value: i32) -> (r: Option<ProgressEvent>)
        ensures
            r == event_for_value(*self, value),
    {
        match self.subscriber_id {
            None => None,
            Some(id) => Some(ProgressEvent { value, subscriber_id: id }),
        }
    }

    /// Runs every job of the batch at once, in input order and without latency,
    /// and collects the events they emit.
    pub fn run_all(&self) -> (r: Vec<ProgressEvent>)
        requires
            batch_fits(*self),
        ensures
            r@ == batch_events(*self),
    {
        let mut r: Vec<ProgressEvent> = Vec::new();
        let mut i: i32 = 0;
        while i < self.count
            invariant
                batch_fits(*self),
                0 <= i,
                self.count <= 0 ==> i == 0,
                self.count > 0 ==> i <= self.count,
                match self.subscriber_id {
                    None => r@.len() == 0,
                    Some(id) => r@ =~= Seq::new(i as nat, |k: int| event_of(id, k)),
                },
            decreases self.count - i,
        {
            let job = job_with_latency(i, 0);
            match self.event_for(job.value) {
                Some(e) => r.push(e),
                None => {},
            }
            i = i + 1;
        }
        proof {
            match self.subscriber_id {
                None => assert(r@ =~= Seq::<ProgressEvent>::empty()),
                Some(id) => {},
            }
        }
        r
    }
}

} // verus!
