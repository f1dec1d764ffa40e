//! Routing of progress events to the connections registered for them.

use crate::pool::ProgressEvent;
use crate::registry::ConnectionRegistry;
use vstd::prelude::*;

verus! {

/// Where an event goes: the handle registered under its subscriber id, or
/// nowhere when no connection is registered under it.
pub open spec fn route<H>(live: Map<u64, H>, e: ProgressEvent) -> Option<H> {
    if live.contains_key(e.subscriber_id) {
        Some(live[e.subscriber_id])
    } else {
        None
    }
}

/// Finds the connection that `event` is for. An event whose subscriber is not
/// registered is dropped: the result is `None`, and nothing else changes.
pub fn publish<'a, H>(registry: &'a ConnectionRegistry<H>, event: &ProgressEvent) -> (r: Option<&'a H>)
    ensures
        match r {
            Some(h) => route(registry@, *event) == Some(*h),
            None => route(registry@, *event) == None::<H>,
        },
{
    registry.lookup(event.subscriber_id)
}

} // verus!
