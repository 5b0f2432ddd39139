//! End-to-end exercises of the correlation core with plain token waiters.

use mcp_client::engine::{interpret, Action, Correlator, Dropped, Outcome, Reply};
use mcp_client::wire::classify_line;

fn json(text: &str) -> serde_json::Value {
    serde_json::from_str(text).expect("test value must parse")
}

#[test]
fn ids_are_strictly_increasing_from_one() {
    let mut c: Correlator<u64> = Correlator::new();
    assert!(c.has_capacity());
    let a = c.begin_request(10);
    let b = c.begin_request(20);
    let d = c.begin_request(30);
    assert_eq!(a, 1);
    assert_eq!(b, 2);
    assert_eq!(d, 3);
    assert_eq!(c.pending_count(), 3);
}

#[test]
fn out_of_order_replies_reach_their_own_callers() {
    let mut c: Correlator<&'static str> = Correlator::new();
    let id_a = c.begin_request("caller_a");
    let id_b = c.begin_request("caller_b");
    assert_eq!((id_a, id_b), (1, 2));

    // The peer answers B first, then A.
    let reply_b = classify_line("{\"jsonrpc\":\"2.0\",\"id\":2,\"result\":{\"who\":\"b\"}}");
    match c.route(reply_b) {
        Action::Deliver { waiter, reply } => {
            assert_eq!(waiter, "caller_b");
            match reply {
                Reply::Success { payload } => assert_eq!(payload, json("{\"who\":\"b\"}")),
                _ => panic!("expected a successful reply"),
            }
        }
        _ => panic!("expected delivery to caller b"),
    }

    let reply_a = classify_line("{\"jsonrpc\":\"2.0\",\"id\":1,\"result\":{\"who\":\"a\"}}");
    match c.route(reply_a) {
        Action::Deliver { waiter, reply } => {
            assert_eq!(waiter, "caller_a");
            match reply {
                Reply::Success { payload } => assert_eq!(payload, json("{\"who\":\"a\"}")),
                _ => panic!("expected a successful reply"),
            }
        }
        _ => panic!("expected delivery to caller a"),
    }
    assert_eq!(c.pending_count(), 0);
}

#[test]
fn protocol_error_reaches_its_caller_with_code_and_message() {
    let mut c: Correlator<u64> = Correlator::new();
    let id = c.begin_request(7);
    assert_eq!(id, 1);
    let m = classify_line(
        "{\"jsonrpc\":\"2.0\",\"id\":1,\"error\":{\"code\":-32601,\"message\":\"method not found\"}}",
    );
    let delivered = match c.route(m) {
        Action::Deliver { waiter, reply } => {
            assert_eq!(waiter, 7);
            reply
        }
        _ => panic!("expected delivery"),
    };
    match interpret(Some(delivered)) {
        Outcome::Protocol { code, message } => {
            assert_eq!(code, -32601);
            assert_eq!(message, "method not found");
        }
        _ => panic!("expected a protocol-level error outcome"),
    }
}

#[test]
fn instant_reply_arriving_before_send_returns_is_not_lost() {
    // An instant fake peer: the reply is routed immediately after the waiter
    // is registered, before the caller's send step has done anything else.
    let mut c: Correlator<&'static str> = Correlator::new();
    let id = c.begin_request("instant_caller");
    assert_eq!(id, 1);

    let m = classify_line("{\"jsonrpc\":\"2.0\",\"id\":1,\"result\":\"pong\"}");
    match c.route(m) {
        Action::Deliver { waiter, reply } => {
            assert_eq!(waiter, "instant_caller");
            match reply {
                Reply::Success { payload } => assert_eq!(payload, json("\"pong\"")),
                _ => panic!("expected a successful reply"),
            }
        }
        _ => panic!("the registered waiter must receive the instant reply"),
    }
}

#[test]
fn abandoned_waiter_resolves_to_closed() {
    match interpret(None) {
        Outcome::Closed => {}
        _ => panic!("a dropped waiter must resolve to the closed condition"),
    }
}

#[test]
fn eof_sweep_abandons_every_pending_request() {
    let mut c: Correlator<u64> = Correlator::new();
    c.begin_request(10);
    c.begin_request(20);
    let id3 = c.begin_request(30);
    assert_eq!(id3, 3);
    assert!(!c.session_closed());

    // The inbound stream closes with id 3 still pending: the sweep drains
    // every entry, so each abandoned wait yields no reply and resolves to
    // the closed outcome instead of blocking indefinitely.
    c.close();
    assert!(c.session_closed());
    assert_eq!(c.pending_count(), 0);
    assert!(!c.is_pending(3));
    match interpret(None) {
        Outcome::Closed => {}
        _ => panic!("a swept wait must resolve to the closed condition"),
    }
}

#[test]
fn malformed_line_does_not_stop_later_lines() {
    let mut c: Correlator<u64> = Correlator::new();
    let id = c.begin_request(42);
    assert_eq!(id, 1);

    let bad = classify_line("{this is not json");
    match c.route(bad) {
        Action::Drop { reason: Dropped::MalformedLine } => {}
        _ => panic!("a malformed line must be dropped as such"),
    }
    assert_eq!(c.pending_count(), 1);
    assert!(c.is_pending(1));

    let good = classify_line("{\"jsonrpc\":\"2.0\",\"id\":1,\"result\":\"ok\"}");
    match c.route(good) {
        Action::Deliver { waiter, reply } => {
            assert_eq!(waiter, 42);
            match reply {
                Reply::Success { payload } => assert_eq!(payload, json("\"ok\"")),
                _ => panic!("expected a successful reply"),
            }
        }
        _ => panic!("the line after a malformed one must still correlate"),
    }
}

#[test]
fn unknown_id_is_dropped_without_touching_other_entries() {
    let mut c: Correlator<u64> = Correlator::new();
    let id = c.begin_request(5);
    assert_eq!(id, 1);

    let stale = classify_line("{\"jsonrpc\":\"2.0\",\"id\":99,\"result\":null}");
    match c.route(stale) {
        Action::Drop { reason: Dropped::UnknownId { id } } => assert_eq!(id, 99),
        _ => panic!("a reply with no pending entry must be dropped"),
    }
    assert_eq!(c.pending_count(), 1);
    assert!(c.is_pending(1));

    let stale_error =
        classify_line("{\"jsonrpc\":\"2.0\",\"id\":99,\"error\":{\"code\":1,\"message\":\"x\"}}");
    match c.route(stale_error) {
        Action::Drop { reason: Dropped::UnknownId { id } } => assert_eq!(id, 99),
        _ => panic!("an error with no pending entry must be dropped"),
    }
    assert!(c.is_pending(1));
}

#[test]
fn error_reply_completes_and_removes_its_entry() {
    let mut c: Correlator<u64> = Correlator::new();
    let first = c.begin_request(1000);
    let second = c.begin_request(2000);
    assert_eq!((first, second), (1, 2));

    let m = classify_line(
        "{\"jsonrpc\":\"2.0\",\"id\":1,\"error\":{\"code\":-1,\"message\":\"boom\"}}",
    );
    match c.route(m) {
        Action::Deliver { waiter, reply } => {
            assert_eq!(waiter, 1000);
            match reply {
                Reply::Failure { code, message } => {
                    assert_eq!(code, -1);
                    assert_eq!(message, "boom");
                }
                _ => panic!("expected the peer's error"),
            }
        }
        _ => panic!("expected delivery of the error"),
    }
    assert!(!c.is_pending(1));
    assert!(c.is_pending(2));
}
