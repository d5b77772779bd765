use vstd::prelude::*;

verus! {

/// The shared state of a stream connection to the upstream server.
///
/// The transport handle that a connection carries lives beside this value,
/// with the code that drives the transport; this type holds only which phase
/// the connection is in, which is all the decisions depend on. Every change
/// of it is one of the events below, applied under the writer lock.
#[derive(Clone, Copy, Debug, PartialEq, Eq, Structural)]
pub enum ConnectionState {
    NotConnected,
    Connecting,
    Connected,
}

/// What can happen to the shared connection.
#[derive(Clone, Copy, Debug, PartialEq, Eq, Structural)]
pub enum ConnEvent {
    /// A query found no connection and asked for one.
    Connect,
    /// The stream handshake completed.
    HandshakeDone,
    /// The connection's background work ended (end of stream, reset).
    Closed,
    /// A lookup issued on the connection failed.
    LookupFailed,
}

/// The state after `e` happens in state `s`.
pub open spec fn next_state(s: ConnectionState, e: ConnEvent) -> ConnectionState {
    match e {
        ConnEvent::Connect => if s == ConnectionState::NotConnected {
            ConnectionState::Connecting
        } else {
            s
        },
        ConnEvent::HandshakeDone => if s == ConnectionState::Connecting {
            ConnectionState::Connected
        } else {
            ConnectionState::NotConnected
        },
        ConnEvent::Closed => ConnectionState::NotConnected,
        ConnEvent::LookupFailed => if s == ConnectionState::Connecting {
            ConnectionState::NotConnected
        } else {
            s
        },
    }
}

/// Whether `e` in state `s` starts a new connection attempt.
pub open spec fn opens_stream(s: ConnectionState, e: ConnEvent) -> bool {
    e == ConnEvent::Connect && s == ConnectionState::NotConnected
}

/// The edges of the connection life cycle: `NotConnected -> Connecting`,
/// `Connecting -> Connected`, `Connecting -> NotConnected` and
/// `Connected -> NotConnected`; staying put is no transition.
pub open spec fn legal_transition(a: ConnectionState, b: ConnectionState) -> bool {
    a == b || (a == ConnectionState::NotConnected && b == ConnectionState::Connecting) || (a
        == ConnectionState::Connecting && b == ConnectionState::Connected) || (a
        == ConnectionState::Connecting && b == ConnectionState::NotConnected) || (a
        == ConnectionState::Connected && b == ConnectionState::NotConnected)
}

/// The state after the events of `es`, in order, starting from `s`.
pub open spec fn run(s: ConnectionState, es: Seq<ConnEvent>) -> ConnectionState
    decreases es.len(),
{
    if es.len() == 0 {
        s
    } else {
        next_state(run(s, es.drop_last()), es.last())
    }
}

/// How many connection attempts the events of `es` start from `s`.
pub open spec fn attempts(s: ConnectionState, es: Seq<ConnEvent>) -> nat
    decreases es.len(),
{
    if es.len() == 0 {
        0
    } else {
        attempts(s, es.drop_last()) + if opens_stream(run(s, es.drop_last()), es.last()) {
            1nat
        } else {
            0nat
        }
    }
}

impl ConnectionState {
    /// A resolver starts without a connection.
    pub fn new() -> (r: ConnectionState)
        ensures
            r == ConnectionState::NotConnected,
    {
        ConnectionState::NotConnected
    }

    /// Checks for a connection and claims the right to open one, in one step.
    /// Returns true exactly when the caller is to open a stream now; the state
    /// is then `Connecting`. Otherwise nothing changes.
    pub fn connect(&mut self) -> (open: bool)
        ensures
            open == opens_stream(*old(self), ConnEvent::Connect),
            *final(self) == next_state(*old(self), ConnEvent::Connect),
    {
        match *self {
            ConnectionState::NotConnected => {
                *self = ConnectionState::Connecting;
                true
            },
            _ => false,
        }
    }

    /// The handshake completed: a pending connection becomes usable. Found in
    /// any other state, the connection is reset, so that a fresh one is made.
    pub fn handshake_done(&mut self)
        ensures
            *final(self) == next_state(*old(self), ConnEvent::HandshakeDone),
    {
        match *self {
            ConnectionState::Connecting => {
                *self = ConnectionState::Connected;
            },
            _ => {
                *self = ConnectionState::NotConnected;
            },
        }
    }

    /// The connection's background work ended.
    pub fn closed(&mut self)
        ensures
            *final(self) == next_state(*old(self), ConnEvent::Closed),
    {
        *self = ConnectionState::NotConnected;
    }

    /// A lookup failed. While the connection is still being made, the attempt
    /// itself is taken to have failed and is dropped; on a live connection, or
    /// on none, nothing changes.
    pub fn lookup_failed(&mut self)
        ensures
            *final(self) == next_state(*old(self), ConnEvent::LookupFailed),
    {
        if *self == ConnectionState::Connecting {
            *self = ConnectionState::NotConnected;
        }
    }
}

/// Every event moves the connection along an edge of its life cycle, or
/// leaves it where it is.
pub proof fn lemma_transition_legal(s: ConnectionState, e: ConnEvent)
    ensures
        legal_transition(s, next_state(s, e)),
{
}

/// Over any run of events, every step is an edge of the life cycle.
pub proof fn lemma_run_legal(s: ConnectionState, es: Seq<ConnEvent>, i: int)
    requires
        0 <= i < es.len(),
    ensures
        legal_transition(run(s, es.take(i)), run(s, es.take(i + 1))),
{
    let t = es.take(i + 1);
    assert(t.drop_last() =~= es.take(i));
    assert(t.last() == es[i]);
    lemma_transition_legal(run(s, es.take(i)), es[i]);
}

/// Any number of connect requests made while there is no connection start
/// exactly one connection attempt; made while one exists or is pending,
/// none.
pub proof fn lemma_connect_idempotent(s: ConnectionState, n: nat)
    ensures
        attempts(s, Seq::new(n, |k: int| ConnEvent::Connect)) == if n > 0 && s
            == ConnectionState::NotConnected {
            1nat
        } else {
            0nat
        },
        n > 0 ==> run(s, Seq::new(n, |k: int| ConnEvent::Connect)) != ConnectionState::NotConnected,
    decreases n,
{
    let es = Seq::new(n, |k: int| ConnEvent::Connect);
    if n > 0 {
        let prev = Seq::new((n - 1) as nat, |k: int| ConnEvent::Connect);
        assert(es.drop_last() =~= prev);
        lemma_connect_idempotent(s, (n - 1) as nat);
        assert(es.last() == ConnEvent::Connect);
    }
}

} // verus!
