use vstd::prelude::*;

use crate::connection::{next_state, opens_stream, ConnEvent, ConnectionState};

verus! {

/// The progress of one query on the stream resolver.
///
/// Times are milliseconds on one monotonic clock. The deadline is fixed when
/// the query is issued and never moves; `in_flight` says whether a lookup
/// was issued and its response is still awaited.
#[derive(Clone, Copy, Debug, PartialEq, Eq, Structural)]
pub struct QueryState {
    pub deadline: u64,
    pub in_flight: bool,
}

/// What a resumption of the query is to do next.
#[derive(Clone, Copy, Debug, PartialEq, Eq, Structural)]
pub enum Step {
    /// The deadline passed: fail with a timeout. Where `detach` holds, a
    /// lookup was in flight and is handed to a background task to be drained
    /// rather than dropped.
    TimedOut { detach: bool },
    /// Poll the lookup in flight, then report with `in_flight_polled`.
    PollInFlight,
    /// There is no connection: ask for one (under the writer lock) and wait.
    Connect,
    /// Issue a lookup on the current connection, poll it once, then report
    /// with `lookup_issued`.
    IssueLookup,
}

/// What polling a lookup gave.
#[derive(Clone, Copy, Debug, PartialEq, Eq, Structural)]
pub enum LookupPoll {
    Ready,
    Pending,
    Failed,
}

/// How a resumption of the query ends.
#[derive(Clone, Copy, Debug, PartialEq, Eq, Structural)]
pub enum Verdict {
    /// The response is there: hand it to the caller.
    Resolved,
    /// Wait to be resumed.
    Suspended,
}

/// Whether the deadline of `q` has passed at `now`.
pub open spec fn expired(q: QueryState, now: u64) -> bool {
    now >= q.deadline
}

/// The first decision of a resumption at `now`, with the connection in
/// state `conn`: the deadline first, then a lookup in flight, then the
/// connection.
pub open spec fn poll_step(q: QueryState, now: u64, conn: ConnectionState) -> Step {
    if expired(q, now) {
        Step::TimedOut { detach: q.in_flight }
    } else if q.in_flight {
        Step::PollInFlight
    } else if conn == ConnectionState::NotConnected {
        Step::Connect
    } else {
        Step::IssueLookup
    }
}

/// The query after its first decision: a query that timed out keeps no
/// lookup; otherwise nothing changes.
pub open spec fn after_step(q: QueryState, now: u64) -> QueryState {
    if expired(q, now) {
        QueryState { deadline: q.deadline, in_flight: false }
    } else {
        q
    }
}

/// The query after a lookup was polled with result `p`: only a pending
/// lookup stays in flight.
pub open spec fn after_lookup(q: QueryState, p: LookupPoll) -> QueryState {
    QueryState { deadline: q.deadline, in_flight: p == LookupPoll::Pending }
}

/// A polled lookup resolves the query exactly when it is ready; every error
/// is absorbed and retried.
pub open spec fn verdict_of(p: LookupPoll) -> Verdict {
    if p == LookupPoll::Ready {
        Verdict::Resolved
    } else {
        Verdict::Suspended
    }
}

/// The connection after a lookup in flight was polled with result `p`.
pub open spec fn conn_after_lookup(conn: ConnectionState, p: LookupPoll) -> ConnectionState {
    if p == LookupPoll::Failed {
        next_state(conn, ConnEvent::LookupFailed)
    } else {
        conn
    }
}

impl QueryState {
    /// A query issued at `now` on a resolver whose timeout is `timeout`.
    pub fn new(now: u64, timeout: u64) -> (r: QueryState)
        requires
            now + timeout <= u64::MAX,
        ensures
            r.deadline == now + timeout,
            !r.in_flight,
    {
        QueryState { deadline: now + timeout, in_flight: false }
    }

    /// Starts a resumption at `now`, having read the connection's state.
    pub fn begin_poll(&mut self, now: u64, conn: ConnectionState) -> (r: Step)
        ensures
            r == poll_step(*old(self), now, conn),
            *final(self) == after_step(*old(self), now),
    {
        if now >= self.deadline {
            let detach = self.in_flight;
            self.in_flight = false;
            Step::TimedOut { detach }
        } else if self.in_flight {
            Step::PollInFlight
        } else {
            match conn {
                ConnectionState::NotConnected => Step::Connect,
                _ => Step::IssueLookup,
            }
        }
    }

    /// The lookup in flight was polled with result `p`, under the writer lock
    /// of the connection `conn`. A failure while the connection is still
    /// being made drops that attempt; on a live connection it only drops this
    /// query's lookup, to be issued again.
    pub fn in_flight_polled(&mut self, p: LookupPoll, conn: &mut ConnectionState) -> (r: Verdict)
        requires
            old(self).in_flight,
        ensures
            r == verdict_of(p),
            *final(self) == after_lookup(*old(self), p),
            *final(conn) == conn_after_lookup(*old(conn), p),
    {
        match p {
            LookupPoll::Ready => {
                self.in_flight = false;
                Verdict::Resolved
            },
            LookupPoll::Pending => Verdict::Suspended,
            LookupPoll::Failed => {
                self.in_flight = false;
                conn.lookup_failed();
                Verdict::Suspended
            },
        }
    }

    /// A lookup was just issued and polled once with result `p`. A pending
    /// one is kept in flight; a failed one is dropped, and the connection is
    /// left alone, since it accepted the call.
    pub fn lookup_issued(&mut self, p: LookupPoll) -> (r: Verdict)
        requires
            !old(self).in_flight,
        ensures
            r == verdict_of(p),
            *final(self) == after_lookup(*old(self), p),
    {
        match p {
            LookupPoll::Ready => Verdict::Resolved,
            LookupPoll::Pending => {
                self.in_flight = true;
                Verdict::Suspended
            },
            LookupPoll::Failed => Verdict::Suspended,
        }
    }
}

/// Once the deadline has passed, a resumption fails with a timeout whatever
/// the connection's state and whether or not a response is waiting; a lookup
/// in flight is detached and no longer tracked by the query.
pub proof fn lemma_timeout_precedence(q: QueryState, now: u64, conn: ConnectionState)
    requires
        now >= q.deadline,
    ensures
        poll_step(q, now, conn) == (Step::TimedOut { detach: q.in_flight }),
        !after_step(q, now).in_flight,
        after_step(q, now).deadline == q.deadline,
{
}

/// When a lookup fails while the connection is still being made, the
/// connection is reset, and the next resumption before the deadline asks for
/// a fresh connection, which starts a new attempt.
pub proof fn lemma_reconnect_after_failed_handshake(q: QueryState, now: u64)
    requires
        q.in_flight,
        now < q.deadline,
    ensures
        conn_after_lookup(ConnectionState::Connecting, LookupPoll::Failed)
            == ConnectionState::NotConnected,
        poll_step(
            after_lookup(q, LookupPoll::Failed),
            now,
            conn_after_lookup(ConnectionState::Connecting, LookupPoll::Failed),
        ) == Step::Connect,
        opens_stream(
            conn_after_lookup(ConnectionState::Connecting, LookupPoll::Failed),
            ConnEvent::Connect,
        ),
{
}

/// When a lookup fails on a live connection, the connection stays up; only
/// the query's lookup is dropped, and the next resumption before the deadline
/// issues a new one on the same connection.
pub proof fn lemma_retry_keeps_connection(q: QueryState, now: u64)
    requires
        q.in_flight,
        now < q.deadline,
    ensures
        conn_after_lookup(ConnectionState::Connected, LookupPoll::Failed)
            == ConnectionState::Connected,
        !after_lookup(q, LookupPoll::Failed).in_flight,
        after_lookup(q, LookupPoll::Failed).deadline == q.deadline,
        poll_step(after_lookup(q, LookupPoll::Failed), now, ConnectionState::Connected)
            == Step::IssueLookup,
{
}

} // verus!
