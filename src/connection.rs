//! The life of one client connection: registration, liveness, echo of data
//! frames, progress frames, and closing.

use crate::frame::{identity_frame, identity_text, progress_frame, progress_text};
use crate::registry::ConnectionRegistry;
use vstd::prelude::*;

verus! {

/// How often, in milliseconds, a connection checks its client's liveness.
pub const HEARTBEAT_INTERVAL_MS: u64 = 5000;

/// How long, in milliseconds, a client may stay silent before it is dropped.
pub const CLIENT_TIMEOUT_MS: u64 = 10000;

/// Where a connection is in its life.
#[derive(Clone, Copy, Debug, PartialEq, Eq, Structural)]
pub enum ConnState {
    Connecting,
    Open,
    Closing,
    Closed,
}

/// A frame received from the client.
#[derive(Debug, PartialEq, Eq)]
pub enum Inbound {
    Ping(String),
    Pong(String),
    Text(String),
    Binary(Vec<u8>),
    Close,
}

/// A frame to write to the client.
#[derive(Debug, PartialEq, Eq)]
pub enum Outbound {
    Ping(String),
    Pong(String),
    Text(String),
    Binary(Vec<u8>),
}

/// What the connection asks of the transport after an event.
#[derive(Debug, PartialEq, Eq)]
pub enum Reaction {
    Send(Outbound),
    Stop,
    Ignore,
}

/// One client connection: its state, its subscriber id, when the client was
/// last heard from and how long it may stay silent (both in milliseconds).
#[derive(Clone, Copy, Debug, PartialEq, Eq, Structural)]
pub struct Connection {
    pub state: ConnState,
    pub id: u64,
    pub last_seen_ms: u64,
    pub timeout_ms: u64,
}

/// Time from `last` to `now`; none where the clock reads earlier than `last`.
pub open spec fn elapsed(last: int, now: int) -> int {
    if now >= last {
        now - last
    } else {
        0
    }
}

/// Whether a heartbeat check at `now` finds the client of `c` silent for too long.
pub open spec fn timed_out(c: Connection, now: int) -> bool {
    c.state == ConnState::Open && elapsed(c.last_seen_ms as int, now) > c.timeout_ms
}

/// Whether `r` writes the text frame `text`.
pub open spec fn sends_text(r: Reaction, text: Seq<char>) -> bool {
    match r {
        Reaction::Send(Outbound::Text(s)) => s@ == text,
        _ => false,
    }
}

/// Relies on `rand::random`: some `u64`, of which nothing is promised.
#[verifier::external_body]
fn fresh_subscriber_id() -> (r: u64) {
    rand::random()
}

impl Connection {
    /// A connection under `id`, not yet open, last heard from at `now_ms`.
    pub fn with_id(id: u64, now_ms: u64, timeout_ms: u64) -> (r: Self)
        ensures
            r.state == ConnState::Connecting,
            r.id == id,
            r.last_seen_ms == now_ms,
            r.timeout_ms == timeout_ms,
    {
        Connection { state: ConnState::Connecting, id, last_seen_ms: now_ms, timeout_ms }
    }

    /// A connection under a randomly drawn id, not yet open.
    pub fn new(now_ms: u64, timeout_ms: u64) -> (r: Self)
        ensures
            r.state == ConnState::Connecting,
            r.last_seen_ms == now_ms,
            r.timeout_ms == timeout_ms,
    {
        Connection::with_id(fresh_subscriber_id(), now_ms, timeout_ms)
    }

    /// Whether the connection is open.
    pub fn is_open(&self) -> (r: bool)
        ensures
            r == (self.state == ConnState::Open),
    {
        self.state == ConnState::Open
    }

    /// Opens the connection once the handshake is done: registers `handle`
    /// under the connection's id and returns the frame `ID: <id>` for the
    /// client. A connection that is not connecting stays as it is, and the
    /// result is `None`.
    pub fn start<H>(&mut self, registry: &mut ConnectionRegistry<H>, handle: H) -> (r: Option<
        String,
    >)
        ensures
            old(self).state == ConnState::Connecting ==> {
                &&& *final(self) == (Connection { state: ConnState::Open, ..*old(self) })
                &&& final(registry)@ == old(registry)@.insert(old(self).id, handle)
                &&& r matches Some(s) && s@ == identity_text(old(self).id)
            },
            old(self).state != ConnState::Connecting ==> {
                &&& *final(self) == *old(self)
                &&& final(registry)@ == old(registry)@
                &&& r is None
            },
    {
        if self.state == ConnState::Connecting {
            registry.register(self.id, handle);
            self.state = ConnState::Open;
            Some(identity_frame(self.id))
        } else {
            None
        }
    }

    /// Handles a frame from the client at time `now_ms`. On an open
    /// connection, a ping or a pong counts as a sign of life and a ping is
    /// answered with a pong of the same payload; text and binary frames are
    /// echoed; a close frame starts closing. Frames that reach a connection
    /// that is not open are ignored.
    pub fn on_frame(&mut self, frame: Inbound, now_ms: u64) -> (r: Reaction)
        ensures
            old(self).state != ConnState::Open ==> *final(self) == *old(self) && r is Ignore,
            old(self).state == ConnState::Open ==> match frame {
                Inbound::Ping(p) => {
                    &&& *final(self) == (Connection { last_seen_ms: now_ms, ..*old(self) })
                    &&& r matches Reaction::Send(Outbound::Pong(q)) && q == p
                },
                Inbound::Pong(_) => {
                    &&& *final(self) == (Connection { last_seen_ms: now_ms, ..*old(self) })
                    &&& r is Ignore
                },
                Inbound::Text(t) => {
                    &&& *final(self) == *old(self)
                    &&& r matches Reaction::Send(Outbound::Text(u)) && u == t
                },
                Inbound::Binary(b) => {
                    &&& *final(self) == *old(self)
                    &&& r matches Reaction::Send(Outbound::Binary(c)) && c == b
                },
                Inbound::Close => {
                    &&& *final(self) == (Connection { state: ConnState::Closing, ..*old(self) })
                    &&& r is Stop
                },
            },
    {
        if self.state != ConnState::Open {
            return Reaction::Ignore;
        }
        match frame {
            Inbound::Ping(p) => {
                self.last_seen_ms = now_ms;
                Reaction::Send(Outbound::Pong(p))
            },
            Inbound::Pong(_) => {
                self.last_seen_ms = now_ms;
                Reaction::Ignore
            },
            Inbound::Text(t) => Reaction::Send(Outbound::Text(t)),
            Inbound::Binary(b) => Reaction::Send(Outbound::Binary(b)),
            Inbound::Close => {
                self.state = ConnState::Closing;
                Reaction::Stop
            },
        }
    }

    /// The periodic heartbeat check at time `now_ms`. A client silent for
    /// longer than the timeout has its connection closed, and no ping is sent;
    /// any other open connection sends an empty ping. A connection that is not
    /// open does nothing.
    pub fn on_tick(&mut self, now_ms: u64) -> (r: Reaction)
        ensures
            timed_out(*old(self), now_ms as int) ==> {
                &&& *final(self) == (Connection { state: ConnState::Closing, ..*old(self) })
                &&& r is Stop
            },
            old(self).state == ConnState::Open && !timed_out(*old(self), now_ms as int) ==> {
                &&& *final(self) == *old(self)
                &&& r matches Reaction::Send(Outbound::Ping(p)) && p@.len() == 0
            },
            old(self).state != ConnState::Open ==> *final(self) == *old(self) && r is Ignore,
    {
        if self.state != ConnState::Open {
            return Reaction::Ignore;
        }
        let silent: u64 = if now_ms >= self.last_seen_ms {
            now_ms - self.last_seen_ms
        } else {
            0
        };
        if silent > self.timeout_ms {
            self.state = ConnState::Closing;
            Reaction::Stop
        } else {
            Reaction::Send(Outbound::Ping(String::new()))
        }
    }

    /// Handles a progress event that reached this connection: an open
    /// connection writes `PROGRESS: <value>` and stays open; any other ignores it.
    pub fn on_progress(&self, value: i32) -> (r: Reaction)
        ensures
            self.state == ConnState::Open ==> sends_text(r, progress_text(value)),
            self.state != ConnState::Open ==> r is Ignore,
    {
        if self.state == ConnState::Open {
            Reaction::Send(Outbound::Text(progress_frame(value)))
        } else {
            Reaction::Ignore
        }
    }

    /// Finishes closing: the connection is closed and its id is no longer
    /// registered. Doing it again changes nothing more.
    pub fn stopped<H>(&mut self, registry: &mut ConnectionRegistry<H>)
        ensures
            *final(self) == (Connection { state: ConnState::Closed, ..*old(self) }),
            final(registry)@ == old(registry)@.remove(old(self).id),
    {
        registry.unregister(self.id);
        self.state = ConnState::Closed;
    }
}

} // verus!
