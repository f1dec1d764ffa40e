use std::collections::BTreeSet;

use job_progress::broker::publish;
use job_progress::connection::{ConnState, Connection, Inbound, Outbound, Reaction, CLIENT_TIMEOUT_MS};
use job_progress::job::{run_job, MAX_LATENCY_SECS, MIN_LATENCY_SECS};
use job_progress::pool::{BatchRequest, ProgressEvent};
use job_progress::registry::ConnectionRegistry;

fn open_connection(id: u64, now_ms: u64, registry: &mut ConnectionRegistry<u64>) -> Connection {
    let mut c = Connection::with_id(id, now_ms, CLIENT_TIMEOUT_MS);
    let hello = c.start(registry, id);
    assert_eq!(hello, Some(format!("ID: {}", id)));
    c
}

fn text_of(r: Reaction) -> String {
    match r {
        Reaction::Send(Outbound::Text(s)) => s,
        other => panic!("expected a text frame, got {:?}", other),
    }
}

#[test]
fn dispatch_ten_to_open_connection() {
    let mut registry = ConnectionRegistry::new();
    let conn = open_connection(42, 0, &mut registry);
    let req = BatchRequest::new(10, Some(42));
    let events = req.run_all();
    assert_eq!(events.len(), 10);
    let mut values = BTreeSet::new();
    for e in &events {
        let handle = publish(&registry, e).expect("connection 42 is registered");
        assert_eq!(*handle, 42);
        let frame = text_of(conn.on_progress(e.value));
        assert!(frame.starts_with("PROGRESS: "));
        values.insert(e.value);
        assert!(conn.is_open());
    }
    let expected: BTreeSet<i32> = (0..10).map(|i| i * 2).collect();
    assert_eq!(values, expected);
    assert_eq!(conn.state, ConnState::Open);
}

#[test]
fn batch_jobs_with_drawn_latency_report_each_input() {
    let req = BatchRequest::new(4, Some(9));
    let inputs = req.inputs();
    assert_eq!(inputs, vec![0, 1, 2, 3]);
    for i in inputs {
        let job = run_job(i);
        assert_eq!(job.input, i);
        assert_eq!(job.value, 2 * i);
        assert!(MIN_LATENCY_SECS <= job.latency_secs && job.latency_secs < MAX_LATENCY_SECS);
        assert_eq!(req.event_for(job.value), Some(ProgressEvent { value: 2 * i, subscriber_id: 9 }));
    }
}

#[test]
fn batch_without_subscriber_emits_nothing() {
    let req = BatchRequest::new(10, None);
    assert!(req.run_all().is_empty());
    assert_eq!(req.inputs().len(), 10);
    assert_eq!(req.event_for(6), None);
}

#[test]
fn empty_and_negative_batches() {
    assert!(BatchRequest::new(0, Some(1)).run_all().is_empty());
    assert!(BatchRequest::new(-3, Some(1)).run_all().is_empty());
    assert!(BatchRequest::new(-3, Some(1)).inputs().is_empty());
}

#[test]
fn two_registrations_keep_their_handles() {
    let mut registry = ConnectionRegistry::new();
    let a = open_connection(1, 0, &mut registry);
    let b = open_connection(2, 0, &mut registry);
    assert_eq!(registry.len(), 2);
    assert_eq!(registry.lookup(a.id), Some(&1));
    assert_eq!(registry.lookup(b.id), Some(&2));
    let to_a = ProgressEvent { value: 4, subscriber_id: 1 };
    let to_b = ProgressEvent { value: 6, subscriber_id: 2 };
    assert_eq!(publish(&registry, &to_a), Some(&1));
    assert_eq!(publish(&registry, &to_b), Some(&2));
}

#[test]
fn silent_client_is_dropped_after_timeout() {
    let mut registry = ConnectionRegistry::new();
    let mut conn = open_connection(7, 1_000, &mut registry);
    match conn.on_tick(11_000) {
        Reaction::Send(Outbound::Ping(p)) => assert!(p.is_empty()),
        other => panic!("expected a ping, got {:?}", other),
    }
    assert_eq!(conn.on_tick(11_001), Reaction::Stop);
    assert_eq!(conn.state, ConnState::Closing);
    conn.stopped(&mut registry);
    assert_eq!(conn.state, ConnState::Closed);
    assert!(!registry.contains(7));
}

#[test]
fn liveness_frames_push_the_timeout_back() {
    let mut registry = ConnectionRegistry::new();
    let mut conn = open_connection(8, 0, &mut registry);
    assert_eq!(
        conn.on_frame(Inbound::Ping("hi".to_string()), 9_000),
        Reaction::Send(Outbound::Pong("hi".to_string()))
    );
    assert_eq!(conn.last_seen_ms, 9_000);
    assert_eq!(conn.on_frame(Inbound::Pong(String::new()), 15_000), Reaction::Ignore);
    assert_eq!(conn.last_seen_ms, 15_000);
    assert!(matches!(conn.on_tick(20_000), Reaction::Send(Outbound::Ping(_))));
    assert!(conn.is_open());
}

#[test]
fn data_frames_are_echoed_and_close_stops() {
    let mut registry = ConnectionRegistry::new();
    let mut conn = open_connection(3, 0, &mut registry);
    assert_eq!(
        conn.on_frame(Inbound::Text("abc".to_string()), 1),
        Reaction::Send(Outbound::Text("abc".to_string()))
    );
    assert_eq!(
        conn.on_frame(Inbound::Binary(vec![1, 2, 3]), 1),
        Reaction::Send(Outbound::Binary(vec![1, 2, 3]))
    );
    assert_eq!(conn.last_seen_ms, 0);
    assert_eq!(conn.on_frame(Inbound::Close, 2), Reaction::Stop);
    assert_eq!(conn.state, ConnState::Closing);
    assert_eq!(conn.on_frame(Inbound::Text("late".to_string()), 3), Reaction::Ignore);
    assert_eq!(conn.on_progress(5), Reaction::Ignore);
    assert_eq!(conn.on_tick(1_000_000), Reaction::Ignore);
}

#[test]
fn events_for_a_closed_connection_are_dropped() {
    let mut registry = ConnectionRegistry::new();
    let mut gone = open_connection(5, 0, &mut registry);
    let stays = open_connection(6, 0, &mut registry);
    assert_eq!(gone.on_frame(Inbound::Close, 1), Reaction::Stop);
    gone.stopped(&mut registry);
    for e in BatchRequest::new(3, Some(5)).run_all() {
        assert_eq!(publish(&registry, &e), None);
    }
    for e in BatchRequest::new(3, Some(6)).run_all() {
        assert_eq!(publish(&registry, &e), Some(&6));
        assert!(stays.on_progress(e.value) != Reaction::Ignore);
    }
}

#[test]
fn unregistering_twice_is_a_no_op() {
    let mut registry = ConnectionRegistry::new();
    let mut conn = open_connection(11, 0, &mut registry);
    conn.stopped(&mut registry);
    conn.stopped(&mut registry);
    assert_eq!(conn.state, ConnState::Closed);
    assert_eq!(registry.len(), 0);
    assert!(!registry.unregister(11));
    assert!(!registry.unregister(12));
}

#[test]
fn start_happens_once() {
    let mut registry = ConnectionRegistry::new();
    let mut conn = open_connection(13, 0, &mut registry);
    assert_eq!(conn.start(&mut registry, 99), None);
    assert_eq!(registry.lookup(13), Some(&13));
}

#[test]
fn fresh_connections_are_connecting() {
    let c = Connection::new(5, CLIENT_TIMEOUT_MS);
    assert_eq!(c.state, ConnState::Connecting);
    assert_eq!(c.last_seen_ms, 5);
    assert_eq!(c.timeout_ms, CLIENT_TIMEOUT_MS);
}
