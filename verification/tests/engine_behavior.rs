use bfuzz::classify::{escape_regex_ignores, is_interesting};
use bfuzz::engine::{ReportAction, SessionState};
use bfuzz::escape::escape_ignores;
use bfuzz::outcome::{ErrorKind, Outcome, ScanError};
use bfuzz::probe::{AttemptResult, ProbeState, ProbeStep};

/// Runs a model scan: fills the window, then completes the youngest
/// in-flight probe first (so completion order differs from payload
/// order), refilling after each completion. Each probe's attempts are
/// produced by `attempt`, called with the payload and the attempt
/// number.
fn drive_scan(
    payloads: &[&str],
    width: u64,
    attempt: impl Fn(&str, u32) -> AttemptResult,
) -> (SessionState, Vec<Outcome>) {
    let mut sess = SessionState::new(payloads.len() as u64, width);
    let mut in_flight: Vec<ProbeState> = Vec::new();
    let mut next: usize = 0;
    while sess.can_launch() {
        sess.record_launch();
        in_flight.push(ProbeState::new(String::from(payloads[next]), 3));
        next += 1;
    }
    let mut outcomes: Vec<Outcome> = Vec::new();
    while let Some(mut probe) = in_flight.pop() {
        let mut tries: u32 = 0;
        let outcome = loop {
            let result = attempt(&probe.payload.clone(), tries);
            tries += 1;
            match probe.on_attempt(result) {
                ProbeStep::Retry => continue,
                ProbeStep::Done { outcome } => break outcome,
            }
        };
        sess.record_completion(&outcome);
        outcomes.push(outcome);
        if sess.can_launch() {
            sess.record_launch();
            in_flight.push(ProbeState::new(String::from(payloads[next]), 3));
            next += 1;
        }
        // the width is a hard cap at every instant
        assert!(in_flight.len() as u64 <= width);
    }
    assert!(sess.is_done());
    (sess, outcomes)
}

#[test]
fn echo_target_yields_one_success_per_payload() {
    let payloads = ["PING", "HELLO", "quit"];
    let (sess, outcomes) = drive_scan(&payloads, 2, |payload, _| AttemptResult::Closed {
        response: format!("{}\n", payload),
    });
    assert_eq!(sess.completed, 3);
    assert_eq!(sess.successes, 3);
    assert_eq!(sess.timeouts, 0);
    assert_eq!(sess.errors, 0);
    let mut seen: Vec<(String, String)> = outcomes
        .into_iter()
        .map(|o| match o {
            Outcome::Success { payload, response } => (payload, response),
            Outcome::Failure { .. } => panic!("an echo target must never fail a probe"),
        })
        .collect();
    seen.sort();
    assert_eq!(
        seen,
        vec![
            (String::from("HELLO"), String::from("HELLO\n")),
            (String::from("PING"), String::from("PING\n")),
            (String::from("quit"), String::from("quit\n")),
        ]
    );
}

#[test]
fn suppressed_success_still_counts_toward_the_completed_tally() {
    let payloads = ["PING", "HELLO", "quit"];
    let (sess, outcomes) = drive_scan(&payloads, 2, |payload, _| AttemptResult::Closed {
        response: format!("{}\n", payload),
    });
    let lits = escape_ignores(&vec![String::from("PING\\n")]);
    let pats = escape_regex_ignores(&Vec::new()).unwrap();
    let mut reported = 0;
    for o in &outcomes {
        if let Outcome::Success { response, .. } = o {
            if is_interesting(response, &lits, &pats) {
                reported += 1;
            }
        }
    }
    assert_eq!(sess.completed, 3);
    assert_eq!(sess.successes, 3);
    assert_eq!(reported, 2);
}

#[test]
fn never_accepting_target_fills_the_error_tally() {
    let payloads = ["a", "b", "c", "d"];
    let (sess, outcomes) = drive_scan(&payloads, 3, |_, _| AttemptResult::ConnectFailed {
        message: String::from("connection refused"),
    });
    assert_eq!(sess.completed, 4);
    assert_eq!(sess.errors, 4);
    assert_eq!(sess.timeouts, 0);
    assert_eq!(sess.successes, 0);
    for o in &outcomes {
        match o {
            Outcome::Failure { error } => assert_eq!(error.kind, ErrorKind::ConnectionError),
            Outcome::Success { .. } => panic!("a refused connect must never be a success"),
        }
    }
}

#[test]
fn silent_target_fills_the_timeout_tally_not_the_error_tally() {
    let payloads = ["a", "b"];
    let (sess, _) = drive_scan(&payloads, 2, |_, _| AttemptResult::TimedOut {
        message: String::from("deadline has elapsed"),
    });
    assert_eq!(sess.completed, 2);
    assert_eq!(sess.timeouts, 2);
    assert_eq!(sess.errors, 0);
}

#[test]
fn window_fills_to_width_then_drains() {
    let mut sess = SessionState::new(5, 2);
    assert!(sess.can_launch());
    sess.record_launch();
    assert!(sess.can_launch());
    sess.record_launch();
    // the window is full: width is a hard cap
    assert!(!sess.can_launch());
    let done = Outcome::Success { payload: String::from("a"), response: String::new() };
    sess.record_completion(&done);
    // one slot freed, payloads remain: steady state refills at once
    assert!(sess.can_launch());
    assert_eq!(sess.completed, 1);
    assert_eq!(sess.launched, 2);
}

#[test]
fn completion_handler_surfaces_escapes_and_pads() {
    let mut sess = SessionState::new(1, 1);
    sess.record_launch();
    let lits: Vec<String> = Vec::new();
    let pats = escape_regex_ignores(&Vec::new()).unwrap();
    let outcome = Outcome::Success {
        payload: String::from("PING"),
        response: String::from("PING\n"),
    };
    match sess.handle_completion(&outcome, &lits, &pats, 20) {
        ReportAction::Report { label, filler, response } => {
            assert_eq!(label, "Payload:[PING]");
            assert_eq!(filler, "      ");
            assert_eq!(response, "PING\\n");
        },
        _ => panic!("an interesting success must be reported"),
    }
    assert_eq!(sess.successes, 1);
}

#[test]
fn completion_handler_suppresses_ignored_but_tallies_it() {
    let mut sess = SessionState::new(1, 1);
    sess.record_launch();
    let lits = escape_ignores(&vec![String::from("PING\\n")]);
    let pats = escape_regex_ignores(&Vec::new()).unwrap();
    let outcome = Outcome::Success {
        payload: String::from("PING"),
        response: String::from("PING\n"),
    };
    assert!(matches!(
        sess.handle_completion(&outcome, &lits, &pats, 20),
        ReportAction::Suppress
    ));
    assert_eq!(sess.completed, 1);
    assert_eq!(sess.successes, 1);
}

#[test]
fn completion_handler_counts_timeouts_without_printing() {
    let mut sess = SessionState::new(1, 1);
    sess.record_launch();
    let lits: Vec<String> = Vec::new();
    let pats = escape_regex_ignores(&Vec::new()).unwrap();
    let outcome = Outcome::Failure {
        error: ScanError::new(ErrorKind::Timeout, "deadline has elapsed", "PING"),
    };
    assert!(matches!(
        sess.handle_completion(&outcome, &lits, &pats, 20),
        ReportAction::CountTimeout
    ));
    assert_eq!(sess.timeouts, 1);
    assert_eq!(sess.errors, 0);
}

#[test]
fn completion_handler_surfaces_hard_errors() {
    let mut sess = SessionState::new(1, 1);
    sess.record_launch();
    let lits: Vec<String> = Vec::new();
    let pats = escape_regex_ignores(&Vec::new()).unwrap();
    let outcome = Outcome::Failure {
        error: ScanError::new(ErrorKind::ConnectionError, "connection refused", "quit"),
    };
    match sess.handle_completion(&outcome, &lits, &pats, 20) {
        ReportAction::ReportError { label, filler, message } => {
            assert_eq!(label, "Payload:[quit]");
            assert_eq!(filler, "      ");
            assert_eq!(message, "connection refused");
        },
        _ => panic!("a hard error must be surfaced with its message"),
    }
    assert_eq!(sess.errors, 1);
}

#[test]
fn narrow_window_on_a_short_list_stops_at_the_source() {
    let mut sess = SessionState::new(1, 1000);
    assert!(sess.can_launch());
    sess.record_launch();
    // the source, not the width, is what is exhausted
    assert!(!sess.can_launch());
    let done = Outcome::Success { payload: String::from("only"), response: String::new() };
    sess.record_completion(&done);
    assert!(sess.is_done());
}
