use simple_resolver::connection::ConnectionState;
use simple_resolver::query::{LookupPoll, QueryState, Step, Verdict};
use simple_resolver::TCP_DEFAULT_TIMEOUT_MS;

#[test]
fn connect_from_many_queries_opens_once() {
    let mut conn = ConnectionState::new();
    let mut opened = 0;
    for _ in 0..8 {
        let mut q = QueryState::new(0, TCP_DEFAULT_TIMEOUT_MS);
        if q.begin_poll(1, ConnectionState::NotConnected) == Step::Connect && conn.connect() {
            opened += 1;
        }
    }
    assert_eq!(opened, 1);
    assert_eq!(conn, ConnectionState::Connecting);
}

#[test]
fn connect_is_a_no_op_when_connected() {
    let mut conn = ConnectionState::Connected;
    assert!(!conn.connect());
    assert_eq!(conn, ConnectionState::Connected);
    let mut conn = ConnectionState::Connecting;
    assert!(!conn.connect());
    assert_eq!(conn, ConnectionState::Connecting);
}

#[test]
fn handshake_and_close_follow_the_life_cycle() {
    let mut conn = ConnectionState::new();
    assert!(conn.connect());
    conn.handshake_done();
    assert_eq!(conn, ConnectionState::Connected);
    conn.closed();
    assert_eq!(conn, ConnectionState::NotConnected);
}

#[test]
fn unexpected_handshake_resets_the_connection() {
    let mut conn = ConnectionState::Connected;
    conn.handshake_done();
    assert_eq!(conn, ConnectionState::NotConnected);
    let mut conn = ConnectionState::NotConnected;
    conn.handshake_done();
    assert_eq!(conn, ConnectionState::NotConnected);
}

#[test]
fn deadline_is_fixed_at_issue() {
    let q = QueryState::new(1000, TCP_DEFAULT_TIMEOUT_MS);
    assert_eq!(q.deadline, 3000);
    assert!(!q.in_flight);
}

#[test]
fn timeout_wins_over_a_waiting_response() {
    let mut q = QueryState { deadline: 100, in_flight: true };
    assert_eq!(q.begin_poll(100, ConnectionState::Connected), Step::TimedOut { detach: true });
    assert!(!q.in_flight);
    assert_eq!(q.deadline, 100);
    let mut q = QueryState { deadline: 100, in_flight: false };
    assert_eq!(q.begin_poll(150, ConnectionState::NotConnected), Step::TimedOut { detach: false });
}

#[test]
fn failed_handshake_leads_to_a_fresh_connect() {
    let mut conn = ConnectionState::new();
    let mut q = QueryState::new(0, 1000);
    assert_eq!(q.begin_poll(1, conn), Step::Connect);
    assert!(conn.connect());
    assert_eq!(q.begin_poll(2, conn), Step::IssueLookup);
    assert_eq!(q.lookup_issued(LookupPoll::Pending), Verdict::Suspended);
    assert!(q.in_flight);
    assert_eq!(q.begin_poll(3, conn), Step::PollInFlight);
    assert_eq!(q.in_flight_polled(LookupPoll::Failed, &mut conn), Verdict::Suspended);
    assert_eq!(conn, ConnectionState::NotConnected);
    assert!(!q.in_flight);
    assert_eq!(q.begin_poll(4, conn), Step::Connect);
    assert!(conn.connect());
}

#[test]
fn transient_error_keeps_the_connection() {
    let mut conn = ConnectionState::Connected;
    let mut q = QueryState { deadline: 500, in_flight: true };
    assert_eq!(q.in_flight_polled(LookupPoll::Failed, &mut conn), Verdict::Suspended);
    assert_eq!(conn, ConnectionState::Connected);
    assert!(!q.in_flight);
    assert_eq!(q.begin_poll(10, conn), Step::IssueLookup);
}

#[test]
fn immediate_failure_leaves_connection_alone() {
    let mut q = QueryState::new(0, 100);
    assert_eq!(q.lookup_issued(LookupPoll::Failed), Verdict::Suspended);
    assert!(!q.in_flight);
    let mut q = QueryState::new(0, 100);
    assert_eq!(q.lookup_issued(LookupPoll::Ready), Verdict::Resolved);
}

#[test]
fn cold_start_resolves_after_handshake() {
    let mut conn = ConnectionState::new();
    let mut q = QueryState::new(0, TCP_DEFAULT_TIMEOUT_MS);
    assert_eq!(q.begin_poll(0, conn), Step::Connect);
    assert!(conn.connect());
    conn.handshake_done();
    assert_eq!(conn, ConnectionState::Connected);
    assert_eq!(q.begin_poll(20, conn), Step::IssueLookup);
    assert_eq!(q.lookup_issued(LookupPoll::Pending), Verdict::Suspended);
    assert_eq!(q.begin_poll(40, conn), Step::PollInFlight);
    assert_eq!(q.in_flight_polled(LookupPoll::Ready, &mut conn), Verdict::Resolved);
    assert_eq!(conn, ConnectionState::Connected);
}

#[test]
fn timeout_when_handshake_never_completes() {
    let mut conn = ConnectionState::new();
    let mut q = QueryState::new(0, 50);
    assert_eq!(q.begin_poll(0, conn), Step::Connect);
    assert!(conn.connect());
    assert_eq!(q.begin_poll(10, conn), Step::IssueLookup);
    assert_eq!(q.lookup_issued(LookupPoll::Pending), Verdict::Suspended);
    assert_eq!(q.begin_poll(49, conn), Step::PollInFlight);
    assert_eq!(q.in_flight_polled(LookupPoll::Pending, &mut conn), Verdict::Suspended);
    assert_eq!(q.begin_poll(50, conn), Step::TimedOut { detach: true });
    assert!(!q.in_flight);
    assert_eq!(conn, ConnectionState::Connecting);
}

#[test]
fn second_query_reuses_the_connection() {
    let mut conn = ConnectionState::new();
    let mut opened = 0;
    for start in [0u64, 1000] {
        let mut q = QueryState::new(start, TCP_DEFAULT_TIMEOUT_MS);
        if q.begin_poll(start, conn) == Step::Connect {
            if conn.connect() {
                opened += 1;
            }
            conn.handshake_done();
        }
        assert_eq!(q.begin_poll(start + 1, conn), Step::IssueLookup);
        assert_eq!(q.lookup_issued(LookupPoll::Pending), Verdict::Suspended);
        assert_eq!(q.in_flight_polled(LookupPoll::Ready, &mut conn), Verdict::Resolved);
        assert_eq!(conn, ConnectionState::Connected);
    }
    assert_eq!(opened, 1);
}
