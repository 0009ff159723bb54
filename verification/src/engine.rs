use vstd::prelude::*;
use vstd::math::min;

use crate::classify::{interesting, is_interesting, IgnorePattern};
use crate::escape::{escape_for_print, print_escaped};
use crate::outcome::{ErrView, ErrorKind, Outcome, OutcomeView};
use crate::probe::{attempt_message, attempt_kind, probe_run, AttemptView, ProbeView};
use crate::probe::lemma_uniform_failures_exhaust_retries;
use crate::report::{filler_len, output_params};

verus! {

/// The books of one scan session: how many payloads the source holds,
/// the concurrency width, and the monotonically non-decreasing tallies
/// the supervising loop keeps. Only that single loop mutates them.
#[derive(Clone, Copy, PartialEq, Eq, Structural, Debug)]
pub struct SessionState {
    /// How many payloads the source holds in all.
    pub total: u64,
    /// The concurrency width: the hard cap on in-flight probes.
    pub width: u64,
    /// How many payloads have been pulled from the source and launched.
    pub launched: u64,
    /// How many launched probes have their outcome recorded.
    pub completed: u64,
    /// Completed probes whose outcome was a success, reported or
    /// suppressed alike.
    pub successes: u64,
    /// Completed probes that ended in a timeout.
    pub timeouts: u64,
    /// Completed probes that ended in a connection or other I/O error.
    pub errors: u64,
}

/// Fresh books: nothing launched, nothing completed, every tally zero.
pub open spec fn fresh_session(total: u64, width: u64) -> SessionState {
    SessionState { total, width, launched: 0, completed: 0, successes: 0, timeouts: 0, errors: 0 }
}

/// The books after one more launch.
pub open spec fn session_launch(s: SessionState) -> SessionState {
    SessionState { launched: (s.launched + 1) as u64, ..s }
}

/// The books after one completed probe: every completion raises
/// `completed` — a suppressed success too — and exactly one of the
/// three class tallies: successes, timeouts, or errors.
pub open spec fn session_complete(s: SessionState, o: OutcomeView) -> SessionState {
    match o {
        OutcomeView::Success { .. } => SessionState {
            completed: (s.completed + 1) as u64,
            successes: (s.successes + 1) as u64,
            ..s
        },
        OutcomeView::Failure { error } => {
            if error.kind == ErrorKind::Timeout {
                SessionState {
                    completed: (s.completed + 1) as u64,
                    timeouts: (s.timeouts + 1) as u64,
                    ..s
                }
            } else {
                SessionState {
                    completed: (s.completed + 1) as u64,
                    errors: (s.errors + 1) as u64,
                    ..s
                }
            }
        },
    }
}

impl SessionState {
    /// Probes in flight: launched and not yet completed.
    pub open spec fn in_flight(self) -> int {
        self.launched - self.completed
    }

    /// Payloads not yet pulled from the source.
    pub open spec fn remaining(self) -> int {
        self.total - self.launched
    }

    /// Well-formedness of the books: the width is positive, nothing is
    /// launched twice or completed before launching, the window never
    /// exceeds the width, and the three class tallies partition the
    /// completed count.
    pub open spec fn wf(self) -> bool {
        &&& self.width >= 1
        &&& self.launched <= self.total
        &&& self.completed <= self.launched
        &&& self.in_flight() <= self.width
        &&& self.successes + self.timeouts + self.errors == self.completed
    }

    /// The terminal state: the source is exhausted and every launched
    /// probe has its outcome recorded.
    pub open spec fn done_spec(self) -> bool {
        self.launched == self.total && self.completed == self.total
    }

    /// Whether the supervising loop may launch one more probe now: the
    /// source still has payloads and the window has room.
    pub open spec fn can_launch_spec(self) -> bool {
        self.launched < self.total && self.in_flight() < self.width
    }

    /// Opens the books of a fresh session.
    pub fn new(total: u64, width: u64) -> (s: SessionState)
        requires
            width >= 1,
        ensures
            s == fresh_session(total, width),
            s.wf(),
    {
        SessionState {
            total,
            width,
            launched: 0,
            completed: 0,
            successes: 0,
            timeouts: 0,
            errors: 0,
        }
    }

    /// Whether one more probe may be launched now.
    pub fn can_launch(&self) -> (b: bool)
        requires
            self.wf(),
        ensures
            b == self.can_launch_spec(),
    {
        self.launched < self.total && self.launched - self.completed < self.width
    }

    /// Records that one more payload was pulled and its probe launched.
    pub fn record_launch(&mut self)
        requires
            old(self).wf(),
            old(self).can_launch_spec(),
        ensures
            *final(self) == session_launch(*old(self)),
            final(self).wf(),
    {
        self.launched = self.launched + 1;
    }

    /// Records one completed probe's outcome in the tallies. No failure
    /// aborts the scan: it only raises its tally.
    pub fn record_completion(&mut self, outcome: &Outcome)
        requires
            old(self).wf(),
            old(self).in_flight() > 0,
        ensures
            *final(self) == session_complete(*old(self), outcome@),
            final(self).wf(),
    {
        self.completed = self.completed + 1;
        match outcome {
            Outcome::Success { .. } => {
                self.successes = self.successes + 1;
            },
            Outcome::Failure { error } => {
                if error.kind == ErrorKind::Timeout {
                    self.timeouts = self.timeouts + 1;
                } else {
                    self.errors = self.errors + 1;
                }
            },
        }
    }

    /// Whether the scan is done: source exhausted and nothing in
    /// flight.
    pub fn is_done(&self) -> (b: bool)
        ensures
            b == self.done_spec(),
    {
        self.launched == self.total && self.completed == self.total
    }
}

/// What the reporter is to do with one completed probe.
#[derive(Debug)]
pub enum ReportAction {
    /// An interesting success: print the payload label, the padding,
    /// and the response, all already escaped for one-line printing.
    Report { label: String, filler: String, response: String },
    /// A suppressed success: print nothing.
    Suppress,
    /// A timeout: tallied, but never printed per event, so that an
    /// aggressive timeout setting cannot flood the output.
    CountTimeout,
    /// A hard error: print the payload label, the padding, and the
    /// error's message.
    ReportError { label: String, filler: String, message: String },
}

impl SessionState {
    /// The engine's completion handler: records one completed probe in
    /// the tallies and decides what the reporter is to do with it — an
    /// interesting success is surfaced, a suppressed one is not, a
    /// timeout is only tallied, and a hard error is surfaced with its
    /// message.
    pub fn handle_completion(
        &mut self,
        outcome: &Outcome,
        literals: &Vec<String>,
        patterns: &Vec<IgnorePattern>,
        max_len: u64,
    ) -> (r: ReportAction)
        requires
            old(self).wf(),
            old(self).in_flight() > 0,
        ensures
            *final(self) == session_complete(*old(self), outcome@),
            final(self).wf(),
            (match outcome@ {
                OutcomeView::Success { payload, response } => ({
                    let lab = "Payload:["@ + payload + "]"@;
                    if interesting(response, literals@, patterns@) {
                        &&& r matches ReportAction::Report { label, filler, response: shown }
                        &&& label@ == print_escaped(lab)
                        &&& filler@.len() == filler_len(lab.len(), max_len)
                        &&& (forall|i: int| 0 <= i < filler@.len() ==> filler@[i] == ' ')
                        &&& shown@ == print_escaped(response)
                    } else {
                        r is Suppress
                    }
                }),
                OutcomeView::Failure { error } => ({
                    let lab = "Payload:["@ + error.payload + "]"@;
                    if error.kind == ErrorKind::Timeout {
                        r is CountTimeout
                    } else {
                        &&& r matches ReportAction::ReportError { label, filler, message }
                        &&& label@ == print_escaped(lab)
                        &&& filler@.len() == filler_len(lab.len(), max_len)
                        &&& (forall|i: int| 0 <= i < filler@.len() ==> filler@[i] == ' ')
                        &&& message@ == error.message
                    }
                }),
            }),
    {
        self.record_completion(outcome);
        match outcome {
            Outcome::Success { payload, response } => {
                if is_interesting(response, literals, patterns) {
                    let (label, filler) = output_params(payload.as_str(), max_len);
                    ReportAction::Report {
                        label: escape_for_print(label),
                        filler,
                        response: escape_for_print(response.clone()),
                    }
                } else {
                    ReportAction::Suppress
                }
            },
            Outcome::Failure { error } => {
                if error.kind == ErrorKind::Timeout {
                    ReportAction::CountTimeout
                } else {
                    let (label, filler) = output_params(error.payload.as_str(), max_len);
                    ReportAction::ReportError {
                        label: escape_for_print(label),
                        filler,
                        message: error.message.clone(),
                    }
                }
            },
        }
    }
}

/// One event the supervising loop feeds the books: a launch, or the
/// completion of one probe with its outcome.
pub enum EngineEvent {
    Launch,
    Complete { outcome: OutcomeView },
}

/// Whether one event is legal in state `s`: launches only while the
/// window has room and the source has payloads, completions only while
/// something is in flight.
pub open spec fn event_ok(s: SessionState, e: EngineEvent) -> bool {
    match e {
        EngineEvent::Launch => s.can_launch_spec(),
        EngineEvent::Complete { .. } => s.in_flight() > 0,
    }
}

/// The books after one event.
pub open spec fn event_step(s: SessionState, e: EngineEvent) -> SessionState {
    match e {
        EngineEvent::Launch => session_launch(s),
        EngineEvent::Complete { outcome } => session_complete(s, outcome),
    }
}

/// Whether the whole event sequence is legal from `s`, each event in
/// the state the ones before it left.
pub open spec fn run_ok(s: SessionState, events: Seq<EngineEvent>) -> bool
    decreases events.len(),
{
    events.len() == 0 || (event_ok(s, events[0]) && run_ok(event_step(s, events[0]), events.skip(1)))
}

/// The books after the whole event sequence.
pub open spec fn run(s: SessionState, events: Seq<EngineEvent>) -> SessionState
    decreases events.len(),
{
    if events.len() == 0 {
        s
    } else {
        run(event_step(s, events[0]), events.skip(1))
    }
}

/// How many launches an event sequence holds.
pub open spec fn count_launches(events: Seq<EngineEvent>) -> int
    decreases events.len(),
{
    if events.len() == 0 {
        0
    } else {
        (if events[0] is Launch {
            1int
        } else {
            0int
        }) + count_launches(events.skip(1))
    }
}

/// How many completions an event sequence holds.
pub open spec fn count_completions(events: Seq<EngineEvent>) -> int
    decreases events.len(),
{
    if events.len() == 0 {
        0
    } else {
        (if events[0] is Complete {
            1int
        } else {
            0int
        }) + count_completions(events.skip(1))
    }
}

/// The session's tallies never decrease: every legal event leaves each
/// counter where it was or one higher.
pub proof fn lemma_tallies_monotonic(s: SessionState, e: EngineEvent)
    requires
        s.wf(),
        event_ok(s, e),
    ensures
        event_step(s, e).launched >= s.launched,
        event_step(s, e).completed >= s.completed,
        event_step(s, e).successes >= s.successes,
        event_step(s, e).timeouts >= s.timeouts,
        event_step(s, e).errors >= s.errors,
{
}

/// Along any legal run the books stay well-formed, the session's fixed
/// parameters stay fixed, and the launch and completion counters add
/// up event by event.
pub proof fn lemma_run_wf(s: SessionState, events: Seq<EngineEvent>)
    requires
        s.wf(),
        run_ok(s, events),
    ensures
        run(s, events).wf(),
        run(s, events).total == s.total,
        run(s, events).width == s.width,
        run(s, events).launched == s.launched + count_launches(events),
        run(s, events).completed == s.completed + count_completions(events),
    decreases events.len(),
{
    if events.len() > 0 {
        lemma_run_wf(event_step(s, events[0]), events.skip(1));
    }
}

/// Every prefix of a legal run is itself legal.
pub proof fn lemma_prefix_run_ok(s: SessionState, events: Seq<EngineEvent>, i: int)
    requires
        run_ok(s, events),
        0 <= i <= events.len(),
    ensures
        run_ok(s, events.take(i)),
    decreases events.len(),
{
    if i > 0 {
        lemma_prefix_run_ok(event_step(s, events[0]), events.skip(1), i - 1);
        assert(events.take(i).skip(1) =~= events.skip(1).take(i - 1));
    }
}

/// For every payload list of length `total` and width at least one:
/// any legal run of the engine that ends with the source exhausted and
/// nothing in flight has launched exactly `total` probes, recorded
/// exactly `total` outcomes, and tallied every one of them in exactly
/// one of the three classes — however many attempts timed out or
/// errored inside each probe.
pub proof fn lemma_exactly_one_outcome_per_payload(
    total: u64,
    width: u64,
    events: Seq<EngineEvent>,
)
    requires
        width >= 1,
        run_ok(fresh_session(total, width), events),
        run(fresh_session(total, width), events).done_spec(),
    ensures
        count_launches(events) == total,
        count_completions(events) == total,
        ({
            let end = run(fresh_session(total, width), events);
            end.successes + end.timeouts + end.errors == total
        }),
{
    lemma_run_wf(fresh_session(total, width), events);
}

/// Well-formed books in which no further launch is allowed — the
/// source is exhausted or the window is full — hold a window of
/// exactly min(width, remaining + in-flight). This is the window the
/// Filling and Steady phases pin: the loop launches until `can_launch`
/// says no, and only then awaits a completion.
pub proof fn lemma_window_saturated(s: SessionState)
    requires
        s.wf(),
        !s.can_launch_spec(),
    ensures
        s.in_flight() == min(s.width as int, s.remaining() + s.in_flight()),
{
}

/// At every instant along a legal run — after any prefix of its events
/// — the number of in-flight probes never exceeds the width.
pub proof fn lemma_window_capped(s: SessionState, events: Seq<EngineEvent>, i: int)
    requires
        s.wf(),
        run_ok(s, events),
        0 <= i <= events.len(),
    ensures
        run(s, events.take(i)).in_flight() <= s.width,
{
    lemma_prefix_run_ok(s, events, i);
    lemma_run_wf(s, events.take(i));
}

/// A probe whose server never answers within the timeout, across all
/// its retry attempts, ends as a `Failure` of class `Timeout`; and
/// completing it raises the session's timeout tally, never its error
/// tally.
pub proof fn lemma_all_timeouts_counted(
    sess: SessionState,
    p: ProbeView,
    events: Seq<AttemptView>,
)
    requires
        sess.wf(),
        sess.in_flight() > 0,
        p.attempts_left >= 1,
        events.len() == p.attempts_left,
        forall|i: int| 0 <= i < events.len() ==> #[trigger] events[i] is TimedOut,
    ensures
        ({
            let o = OutcomeView::Failure {
                error: ErrView {
                    kind: ErrorKind::Timeout,
                    payload: p.payload,
                    message: attempt_message(events.last()),
                },
            };
            &&& probe_run(p, events) == Some(o)
            &&& session_complete(sess, o).timeouts == sess.timeouts + 1
            &&& session_complete(sess, o).errors == sess.errors
            &&& session_complete(sess, o).successes == sess.successes
            &&& session_complete(sess, o).completed == sess.completed + 1
        }),
{
    assert forall|i: int| 0 <= i < events.len() implies !(#[trigger] events[i] is Closed)
        && attempt_kind(events[i]) == ErrorKind::Timeout by {}
    lemma_uniform_failures_exhaust_retries(p, events, ErrorKind::Timeout);
}

/// A probe whose target never accepts a connection, across all its
/// retry attempts, ends as a `Failure` of class `ConnectionError`; and
/// completing it raises the session's error tally, never its timeout
/// tally.
pub proof fn lemma_all_connect_failures_counted(
    sess: SessionState,
    p: ProbeView,
    events: Seq<AttemptView>,
)
    requires
        sess.wf(),
        sess.in_flight() > 0,
        p.attempts_left >= 1,
        events.len() == p.attempts_left,
        forall|i: int| 0 <= i < events.len() ==> #[trigger] events[i] is ConnectFailed,
    ensures
        ({
            let o = OutcomeView::Failure {
                error: ErrView {
                    kind: ErrorKind::ConnectionError,
                    payload: p.payload,
                    message: attempt_message(events.last()),
                },
            };
            &&& probe_run(p, events) == Some(o)
            &&& session_complete(sess, o).errors == sess.errors + 1
            &&& session_complete(sess, o).timeouts == sess.timeouts
            &&& session_complete(sess, o).successes == sess.successes
            &&& session_complete(sess, o).completed == sess.completed + 1
        }),
{
    assert forall|i: int| 0 <= i < events.len() implies !(#[trigger] events[i] is Closed)
        && attempt_kind(events[i]) == ErrorKind::ConnectionError by {}
    lemma_uniform_failures_exhaust_retries(p, events, ErrorKind::ConnectionError);
}

} // verus!
