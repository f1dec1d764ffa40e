//! Properties of the whole pipeline, from a batch request through the broker
//! and the registry to the connections.

use crate::broker::route;
use crate::connection::{timed_out, ConnState, Connection};
use crate::job::job_value;
use crate::pool::{batch_events, batch_fits, batch_len, event_for_value, BatchRequest, ProgressEvent};
use vstd::arithmetic::div_mod::{lemma_fundamental_div_mod, lemma_mod_bound};
use vstd::arithmetic::mul::lemma_mul_is_distributive_add;
use vstd::prelude::*;

verus! {

/// A batch addressed to a connection that stays registered yields one event
/// for each input in `0..count`: the event of input `k` carries the job's
/// value on `k`, the values of distinct inputs differ, and every event is
/// routed to that connection's handle.
pub proof fn lemma_batch_reaches_subscriber<H>(req: BatchRequest, id: u64, live: Map<u64, H>)
    requires
        req.subscriber_id == Some(id),
        live.contains_key(id),
        batch_fits(req),
    ensures
        batch_events(req).len() == batch_len(req.count as int),
        forall|k: int|
            0 <= k < batch_len(req.count as int) ==> {
                &&& #[trigger] batch_events(req)[k].value == job_value(k)
                &&& batch_events(req)[k].subscriber_id == id
                &&& route(live, batch_events(req)[k]) == Some(live[id])
            },
        forall|j: int, k: int|
            0 <= j < batch_len(req.count as int) && 0 <= k < batch_len(req.count as int) && j
                != k ==> #[trigger] batch_events(req)[j].value != #[trigger] batch_events(
                req,
            )[k].value,
{
}

/// A batch with no subscriber emits no event, whatever its jobs yield.
pub proof fn lemma_unsubscribed_batch_silent(req: BatchRequest)
    requires
        req.subscriber_id is None,
    ensures
        batch_events(req).len() == 0,
        forall|value: i32| #[trigger] event_for_value(req, value) is None,
{
}

/// Two registrations under distinct ids keep each other: whichever comes
/// first, each id then maps to its own handle, and the events for it are
/// routed to that handle.
pub proof fn lemma_registrations_kept<H>(live: Map<u64, H>, a: u64, ha: H, b: u64, hb: H)
    requires
        a != b,
    ensures
        live.insert(a, ha).insert(b, hb) == live.insert(b, hb).insert(a, ha),
        live.insert(a, ha).insert(b, hb)[a] == ha,
        live.insert(a, ha).insert(b, hb)[b] == hb,
        forall|e: ProgressEvent|
            e.subscriber_id == a ==> #[trigger] route(live.insert(a, ha).insert(b, hb), e) == Some(
                ha,
            ),
        forall|e: ProgressEvent|
            e.subscriber_id == b ==> #[trigger] route(live.insert(a, ha).insert(b, hb), e) == Some(
                hb,
            ),
{
    assert(live.insert(a, ha).insert(b, hb) =~= live.insert(b, hb).insert(a, ha));
}

/// An open connection whose client stays silent is closed by a heartbeat
/// check: with checks every `interval` from `first_check` on, starting no
/// later than the timeout runs out, one check comes after the timeout has run
/// out and at most one interval after it, and that check finds the client
/// timed out. Once stopped, its id is no longer registered.
pub proof fn lemma_silent_client_dropped<H>(
    c: Connection,
    first_check: int,
    interval: int,
    live: Map<u64, H>,
)
    requires
        c.state == ConnState::Open,
        0 < interval,
        first_check <= c.last_seen_ms + c.timeout_ms,
    ensures
        exists|n: nat|
            {
                let t = first_check + #[trigger] (n * interval);
                &&& c.last_seen_ms + c.timeout_ms < t <= c.last_seen_ms + c.timeout_ms + interval
                &&& timed_out(c, t)
            },
        !live.remove(c.id).contains_key(c.id),
{
    let deadline = c.last_seen_ms + c.timeout_ms;
    let d = deadline - first_check;
    lemma_fundamental_div_mod(d, interval);
    lemma_mod_bound(d, interval);
    let n: nat = (d / interval + 1) as nat;
    assert(d / interval >= 0) by {
        vstd::arithmetic::div_mod::lemma_div_pos_is_pos(d, interval);
    }
    lemma_mul_is_distributive_add(interval, d / interval, 1);
    assert(n * interval == interval * (d / interval) + interval) by {
        vstd::arithmetic::mul::lemma_mul_is_commutative(n as int, interval);
    }
    let t = first_check + n * interval;
    assert(deadline < t <= deadline + interval);
    assert(timed_out(c, t));
}

/// Once a connection's id is unregistered, the events for it are dropped,
/// and the events for every other id go where they went before.
pub proof fn lemma_closed_subscriber_dropped<H>(live: Map<u64, H>, id: u64)
    ensures
        forall|e: ProgressEvent|
            e.subscriber_id == id ==> #[trigger] route(live.remove(id), e) == None::<H>,
        forall|e: ProgressEvent|
            e.subscriber_id != id ==> #[trigger] route(live.remove(id), e) == route(live, e),
{
}

/// Unregistering an id a second time changes nothing; neither does
/// unregistering an id that was never registered.
pub proof fn lemma_unregister_idempotent<H>(live: Map<u64, H>, id: u64)
    ensures
        live.remove(id).remove(id) == live.remove(id),
        !live.contains_key(id) ==> live.remove(id) == live,
{
    assert(live.remove(id).remove(id) =~= live.remove(id));
    if !live.contains_key(id) {
        assert(live.remove(id) =~= live);
    }
}

} // verus!
