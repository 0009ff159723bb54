use bfuzz::outcome::{ErrorKind, Outcome, ScanError};
use bfuzz::probe::{wire_payload, AttemptResult, ProbeState, ProbeStep};

#[test]
fn wire_payload_appends_a_newline_only_when_asked() {
    assert_eq!(wire_payload("PING", true), "PING\n");
    assert_eq!(wire_payload("PING", false), "PING");
    assert_eq!(wire_payload("", true), "\n");
}

#[test]
fn empty_close_is_a_success_not_a_failure() {
    let mut p = ProbeState::new(String::from("PING"), 3);
    let step = p.on_attempt(AttemptResult::Closed { response: String::new() });
    match step {
        ProbeStep::Done { outcome: Outcome::Success { payload, response } } => {
            assert_eq!(payload, "PING");
            assert_eq!(response, "");
        },
        _ => panic!("an immediately closed stream must finish as a success"),
    }
}

#[test]
fn close_with_data_returns_the_accumulated_response() {
    let mut p = ProbeState::new(String::from("HELLO"), 3);
    let step = p.on_attempt(AttemptResult::Closed { response: String::from("HELLO\n") });
    match step {
        ProbeStep::Done { outcome: Outcome::Success { payload, response } } => {
            assert_eq!(payload, "HELLO");
            assert_eq!(response, "HELLO\n");
        },
        _ => panic!("a closed stream must finish as a success"),
    }
}

#[test]
fn timeouts_exhaust_all_retries_and_keep_the_last_message() {
    let mut p = ProbeState::new(String::from("PING"), 3);
    let s1 = p.on_attempt(AttemptResult::TimedOut { message: String::from("first wait") });
    assert!(matches!(s1, ProbeStep::Retry));
    let s2 = p.on_attempt(AttemptResult::TimedOut { message: String::from("second wait") });
    assert!(matches!(s2, ProbeStep::Retry));
    let s3 = p.on_attempt(AttemptResult::TimedOut { message: String::from("third wait") });
    match s3 {
        ProbeStep::Done { outcome: Outcome::Failure { error } } => {
            assert_eq!(error.kind, ErrorKind::Timeout);
            assert_eq!(error.payload, "PING");
            assert_eq!(error.message, "third wait");
        },
        _ => panic!("the last timeout must end the probe as a failure"),
    }
}

#[test]
fn connect_failures_exhaust_all_retries() {
    let mut p = ProbeState::new(String::from("quit"), 3);
    for _ in 0..2 {
        let step = p.on_attempt(AttemptResult::ConnectFailed {
            message: String::from("connection refused"),
        });
        assert!(matches!(step, ProbeStep::Retry));
    }
    let last = p.on_attempt(AttemptResult::ConnectFailed {
        message: String::from("connection refused"),
    });
    match last {
        ProbeStep::Done { outcome: Outcome::Failure { error } } => {
            assert_eq!(error.kind, ErrorKind::ConnectionError);
            assert_eq!(error.payload, "quit");
        },
        _ => panic!("the last refused connect must end the probe as a failure"),
    }
}

#[test]
fn write_and_read_failures_are_io_errors() {
    let mut p = ProbeState::new(String::from("x"), 2);
    assert!(matches!(
        p.on_attempt(AttemptResult::WriteFailed { message: String::from("broken pipe") }),
        ProbeStep::Retry
    ));
    let last = p.on_attempt(AttemptResult::ReadFailed { message: String::from("reset") });
    match last {
        ProbeStep::Done { outcome: Outcome::Failure { error } } => {
            assert_eq!(error.kind, ErrorKind::IOError);
            assert_eq!(error.message, "reset");
        },
        _ => panic!("the last failed read must end the probe as a failure"),
    }
}

#[test]
fn success_after_transient_failures_short_circuits() {
    let mut p = ProbeState::new(String::from("quit"), 3);
    let first = p.on_attempt(AttemptResult::ConnectFailed {
        message: String::from("connection reset"),
    });
    assert!(matches!(first, ProbeStep::Retry));
    let step = p.on_attempt(AttemptResult::Closed { response: String::from("bye\n") });
    match step {
        ProbeStep::Done { outcome: Outcome::Success { payload, response } } => {
            assert_eq!(payload, "quit");
            assert_eq!(response, "bye\n");
        },
        _ => panic!("a closed stream must finish as a success even after a retry"),
    }
}

#[test]
fn scan_error_carries_kind_message_and_payload() {
    let e = ScanError::new(ErrorKind::IOError, "broken pipe", "PING");
    assert_eq!(*e.kind(), ErrorKind::IOError);
    assert_eq!(e.message, "broken pipe");
    assert_eq!(e.payload, "PING");
}
