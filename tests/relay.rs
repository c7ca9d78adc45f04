use chat_relay::{
    compose_response, listen_address, parse_line, read_message, reply_for, settle, Client,
    ErrorKind, HandlerOutcome, IoFailure, Message, MessageStore, TaskPoll, TaskTracker, CAPACITY,
};

fn msg(user: &str, content: &str) -> Message {
    Message::new(user.to_string(), content.to_string())
}

fn failure(kind: ErrorKind, detail: &str) -> IoFailure {
    IoFailure::new(kind, detail.to_string())
}

fn expect_message(o: &HandlerOutcome, user: &str, content: &str) {
    match o {
        HandlerOutcome::Message(m) => {
            assert_eq!(m.username(), user);
            assert_eq!(m.message(), content);
        }
        other => panic!("expected a message, got {:?}", other),
    }
}

#[test]
fn parse_message_line() {
    expect_message(&parse_line("alice: hello"), "alice", "hello");
}

#[test]
fn parse_fetch_only_line() {
    match parse_line("alice: ") {
        HandlerOutcome::NoMessage(u) => assert_eq!(u, "alice"),
        other => panic!("expected a fetch-only request, got {:?}", other),
    }
}

#[test]
fn parse_keeps_later_separators_in_content() {
    expect_message(&parse_line("alice: a: b"), "alice", "a: b");
}

#[test]
fn parse_empty_line_is_nothing_received() {
    assert!(matches!(parse_line(""), HandlerOutcome::NothingReceived));
}

#[test]
fn parse_end_of_stream_is_nothing_received() {
    assert!(matches!(read_message(Ok(None)), HandlerOutcome::NothingReceived));
}

#[test]
fn parse_line_without_separator_has_no_username() {
    assert!(matches!(parse_line("alice"), HandlerOutcome::NoUsername));
    assert!(matches!(parse_line("alice:hello"), HandlerOutcome::NoUsername));
    assert!(matches!(parse_line("alice :"), HandlerOutcome::NoUsername));
}

#[test]
fn parse_empty_username_and_unicode() {
    expect_message(&parse_line(": hi"), "", "hi");
    expect_message(&parse_line("zoë: ça va: ok"), "zoë", "ça va: ok");
}

#[test]
fn read_failure_is_error() {
    match read_message(Err(failure(ErrorKind::InvalidData, "stream did not contain valid UTF-8"))) {
        HandlerOutcome::Error(f) => assert_eq!(f.kind, ErrorKind::InvalidData),
        other => panic!("expected an error, got {:?}", other),
    }
}

#[test]
fn read_line_is_parsed() {
    expect_message(&read_message(Ok(Some("bob: yo".to_string()))), "bob", "yo");
}

#[test]
fn compose_rewrites_requester_as_you() {
    let snapshot = vec![msg("alice", "hi"), msg("bob", "yo")];
    assert_eq!(compose_response(&snapshot, "alice"), "you: hi\nbob: yo");
}

#[test]
fn compose_empty_snapshot_is_empty() {
    assert_eq!(compose_response(&Vec::new(), "alice"), "");
}

#[test]
fn compose_single_line_has_no_trailing_newline() {
    assert_eq!(compose_response(&vec![msg("bob", "yo")], "alice"), "bob: yo");
}

#[test]
fn compose_twice_is_identical() {
    let snapshot = vec![msg("alice", "hi"), msg("bob", "yo"), msg("alice", "again")];
    let first = compose_response(&snapshot, "bob");
    let second = compose_response(&snapshot, "bob");
    assert_eq!(first, second);
    assert_eq!(first, "alice: hi\nyou: yo\nalice: again");
}

#[test]
fn store_never_exceeds_capacity_and_evicts_oldest() {
    let mut store = MessageStore::new();
    for i in 0..250 {
        store.append(msg("u", &i.to_string()));
        assert!(store.len() <= CAPACITY);
    }
    assert_eq!(store.len(), 100);
    let snapshot = store.snapshot();
    for (k, m) in snapshot.iter().enumerate() {
        assert_eq!(m.message(), (150 + k).to_string());
    }
}

#[test]
fn store_below_capacity_keeps_everything() {
    let mut store = MessageStore::new();
    store.append(msg("a", "1"));
    store.append(msg("b", "2"));
    store.evict_overflow();
    let snapshot = store.snapshot();
    assert_eq!(snapshot.len(), 2);
    assert_eq!(snapshot[0].username(), "a");
    assert_eq!(snapshot[1].username(), "b");
}

#[test]
fn store_at_capacity_then_one_more() {
    let mut store = MessageStore::new();
    for i in 0..100 {
        store.append(msg("u", &i.to_string()));
    }
    assert_eq!(store.len(), 100);
    store.append(msg("u", "100"));
    let snapshot = store.snapshot();
    assert_eq!(snapshot.len(), 100);
    assert_eq!(snapshot[0].message(), "1");
    assert_eq!(snapshot[99].message(), "100");
}

#[test]
fn snapshot_is_independent_of_later_appends() {
    let mut store = MessageStore::new();
    store.append(msg("a", "1"));
    let snapshot = store.snapshot();
    store.append(msg("b", "2"));
    assert_eq!(snapshot.len(), 1);
    assert_eq!(store.len(), 2);
}

#[test]
fn reap_cycle_keeps_running_task_and_applies_outcomes() {
    let mut tracker: TaskTracker<u32> = TaskTracker::new();
    tracker.track(1);
    tracker.track(2);
    tracker.track(3);
    assert_eq!(tracker.take_pending(), vec![1, 2, 3]);
    let polled = vec![
        TaskPoll::Finished(HandlerOutcome::Message(msg("mia", "hello"))),
        TaskPoll::Running(2),
        TaskPoll::Finished(HandlerOutcome::Error(failure(ErrorKind::BrokenPipe, "broken pipe"))),
    ];
    let logs = tracker.reap(polled);
    assert_eq!(logs, vec!["A pipe closed unexpectedly".to_string()]);
    let snapshot = tracker.snapshot();
    assert_eq!(snapshot.len(), 1);
    assert_eq!(snapshot[0].username(), "mia");
    assert_eq!(snapshot[0].message(), "hello");
    let pending = tracker.take_pending();
    assert_eq!(pending, vec![2]);

    // The task left running is scanned again on the next cycle.
    let logs = tracker.reap(vec![TaskPoll::Finished(HandlerOutcome::NoMessage("ann".to_string()))]);
    assert!(logs.is_empty());
    assert!(tracker.take_pending().is_empty());
    assert_eq!(tracker.snapshot().len(), 1);
}

#[test]
fn reap_discards_other_outcomes() {
    let mut tracker: TaskTracker<u8> = TaskTracker::new();
    let logs = tracker.reap(vec![
        TaskPoll::Finished(HandlerOutcome::NothingReceived),
        TaskPoll::Finished(HandlerOutcome::NoUsername),
        TaskPoll::Finished(HandlerOutcome::NoMessage("x".to_string())),
    ]);
    assert!(logs.is_empty());
    assert_eq!(tracker.snapshot().len(), 0);
    assert!(tracker.take_pending().is_empty());
}

#[test]
fn reap_appends_in_scan_order_and_evicts() {
    let mut tracker: TaskTracker<u8> = TaskTracker::new();
    let mut polled = Vec::new();
    for i in 0..105 {
        polled.push(TaskPoll::Finished(HandlerOutcome::Message(msg("u", &i.to_string()))));
    }
    tracker.reap(polled);
    let snapshot = tracker.snapshot();
    assert_eq!(snapshot.len(), 100);
    assert_eq!(snapshot[0].message(), "5");
    assert_eq!(snapshot[99].message(), "104");
}

#[test]
fn fetch_only_request_from_a_stranger_gets_history_unmodified() {
    let mut store = MessageStore::new();
    store.append(msg("alice", "hi"));
    store.append(msg("bob", "yo"));
    store.append(msg("dave", "hey: there"));
    let snapshot = store.snapshot();
    let outcome = read_message(Ok(Some("carol: ".to_string())));
    match &outcome {
        HandlerOutcome::NoMessage(u) => assert_eq!(u, "carol"),
        other => panic!("expected a fetch-only request, got {:?}", other),
    }
    let reply = reply_for(&outcome, &snapshot);
    assert_eq!(reply, Some("alice: hi\nbob: yo\ndave: hey: there".to_string()));
    let outcome = settle(outcome, Ok(()));
    assert!(matches!(outcome, HandlerOutcome::NoMessage(_)));
}

#[test]
fn reply_for_message_uses_sender_as_requester() {
    let snapshot = vec![msg("alice", "hi"), msg("bob", "yo")];
    let outcome = parse_line("bob: new");
    assert_eq!(reply_for(&outcome, &snapshot), Some("alice: hi\nyou: yo".to_string()));
}

#[test]
fn reply_for_missing_username_is_diagnostic() {
    let snapshot = vec![msg("alice", "hi")];
    assert_eq!(
        reply_for(&HandlerOutcome::NoUsername, &snapshot),
        Some("Received an empty message!".to_string())
    );
    assert_eq!(reply_for(&HandlerOutcome::NothingReceived, &snapshot), None);
}

#[test]
fn failed_write_replaces_outcome() {
    let outcome = parse_line("alice: hi");
    match settle(outcome, Err(failure(ErrorKind::ConnectionReset, "reset"))) {
        HandlerOutcome::Error(f) => {
            assert_eq!(f.kind, ErrorKind::ConnectionReset);
            assert_eq!(f.detail, "reset");
        }
        other => panic!("expected an error, got {:?}", other),
    }
    expect_message(&settle(parse_line("alice: hi"), Ok(())), "alice", "hi");
}

#[test]
fn server_log_messages() {
    assert_eq!(failure(ErrorKind::BrokenPipe, "x").server_log_message(), "A pipe closed unexpectedly");
    assert_eq!(failure(ErrorKind::InvalidData, "x").server_log_message(), "Received invalid data");
    assert_eq!(failure(ErrorKind::TimedOut, "x").server_log_message(), "Request timed out");
    assert_eq!(failure(ErrorKind::Interrupted, "x").server_log_message(), "Receiving data was interrupted");
    assert_eq!(
        failure(ErrorKind::Unsupported, "x").server_log_message(),
        "Receiving data over internet is not supported"
    );
    assert_eq!(failure(ErrorKind::OutOfMemory, "x").server_log_message(), "Request used too much memory");
    assert_eq!(failure(ErrorKind::Other, "x").server_log_message(), "Unexpected error occured");
    assert_eq!(
        failure(ErrorKind::ConnectionReset, "connection reset").server_log_message(),
        "Unhandled error occured: connection reset"
    );
}

#[test]
fn client_send_failure_messages() {
    assert_eq!(
        failure(ErrorKind::ConnectionRefused, "x").send_failure_message(),
        "The server refused to connect!"
    );
    assert_eq!(
        failure(ErrorKind::AddrNotAvailable, "x").send_failure_message(),
        "The requested address wasn't available!"
    );
    assert_eq!(
        failure(ErrorKind::InvalidInput, "bad address").send_failure_message(),
        "The server address is invalid!\nbad address"
    );
    assert_eq!(failure(ErrorKind::WriteZero, "x").send_failure_message(), "0 bytes were sent!");
    assert_eq!(
        failure(ErrorKind::Unsupported, "x").send_failure_message(),
        "You don't have an internet connection!"
    );
    assert_eq!(
        failure(ErrorKind::Other, "odd").send_failure_message(),
        "An unknown error occured!\nodd"
    );
    assert_eq!(
        failure(ErrorKind::InvalidData, "bad data").send_failure_message(),
        "An unhandled error occured!\nbad data"
    );
}

#[test]
fn client_receive_failure_messages() {
    assert_eq!(
        failure(ErrorKind::InvalidData, "x").receive_failure_message(),
        "The message wasn't valid utf-8!"
    );
    assert_eq!(
        failure(ErrorKind::OutOfMemory, "x").receive_failure_message(),
        "The received messages took too much memory!"
    );
    assert_eq!(
        failure(ErrorKind::Unsupported, "unsupported").receive_failure_message(),
        "An unhandled error occured!\nunsupported"
    );
    assert_eq!(
        failure(ErrorKind::NotConnected, "x").receive_failure_message(),
        "The application tried to send the message before the connection was active!"
    );
}

#[test]
fn listen_address_choices() {
    assert_eq!(
        listen_address(Some("10.0.0.1:9000".to_string()), Some("192.168.1.2".to_string()), None),
        "10.0.0.1:9000"
    );
    assert_eq!(
        listen_address(None, Some("192.168.1.2".to_string()), Some("fe80::1".to_string())),
        "192.168.1.2:2000"
    );
    assert_eq!(listen_address(None, None, Some("fe80::1".to_string())), "fe80::1:2000");
    assert_eq!(listen_address(None, None, None), "127.0.0.1:2000");
}

#[test]
fn client_request_line_and_connection_lifecycle() {
    let mut client: Client<u16> = Client::new("alice".to_string(), "127.0.0.1:2000".to_string());
    assert!(!client.is_connected());
    assert_eq!(client.username(), "alice");
    assert_eq!(client.server(), "127.0.0.1:2000");
    assert_eq!(client.request_line("hello"), "alice: hello\n");
    assert_eq!(client.request_line(""), "alice: \n");
    client.attach(7);
    assert!(client.is_connected());
    assert_eq!(client.take_connection(), Some(7));
    assert!(!client.is_connected());
    client.attach(8);
    client.close_connection();
    assert!(!client.is_connected());
    assert_eq!(client.take_connection(), None);
}

#[test]
fn message_accessors() {
    let m = Message::new("alice".to_string(), "hi".to_string());
    assert_eq!(m.username(), "alice");
    assert_eq!(m.message(), "hi");
    assert!(m.is_from(&"alice".to_string()));
    assert!(!m.is_from(&"bob".to_string()));
    let d = m.duplicate();
    assert_eq!(d.username(), "alice");
    assert_eq!(d.message(), "hi");
}
