use vstd::prelude::*;

use crate::escape::push_char;
use crate::outcome::{ErrView, ErrorKind, Outcome, OutcomeView, ScanError};

verus! {

/// The exact text written to the peer for one payload: the payload
/// itself, with a trailing newline appended when so configured.
pub fn wire_payload(payload: &str, new_lines: bool) -> (r: String)
    ensures
        r@ == (if new_lines {
            payload@.push('\n')
        } else {
            payload@
        }),
{
    let mut data = payload.to_owned();
    if new_lines {
        push_char(&mut data, '\n');
    }
    data
}

/// What one whole connect-write-read attempt came to, as the
/// supervising loop observed it at its I/O edge.
#[derive(Debug)]
pub enum AttemptResult {
    /// The peer closed the stream: every byte read up to that point,
    /// decoded permissively, possibly empty.
    Closed { response: String },
    /// The connection could not be established.
    ConnectFailed { message: String },
    /// The single write of the payload failed.
    WriteFailed { message: String },
    /// A read failed with something other than a timeout.
    ReadFailed { message: String },
    /// A single read did not complete within the response timeout.
    TimedOut { message: String },
}

/// Spec-level image of an `AttemptResult`.
pub enum AttemptView {
    Closed { response: Seq<char> },
    ConnectFailed { message: Seq<char> },
    WriteFailed { message: Seq<char> },
    ReadFailed { message: Seq<char> },
    TimedOut { message: Seq<char> },
}

impl View for AttemptResult {
    type V = AttemptView;

    open spec fn view(&self) -> AttemptView {
        match self {
            AttemptResult::Closed { response } => AttemptView::Closed { response: response@ },
            AttemptResult::ConnectFailed { message } => AttemptView::ConnectFailed {
                message: message@,
            },
            AttemptResult::WriteFailed { message } => AttemptView::WriteFailed {
                message: message@,
            },
            AttemptResult::ReadFailed { message } => AttemptView::ReadFailed { message: message@ },
            AttemptResult::TimedOut { message } => AttemptView::TimedOut { message: message@ },
        }
    }
}

/// The failure class a non-successful attempt is recorded under: a
/// failed connect is a `ConnectionError`, an overlong wait a `Timeout`,
/// and a failed write or read an `IOError`.
pub open spec fn attempt_kind(r: AttemptView) -> ErrorKind
    recommends
        r !is Closed,
{
    match r {
        AttemptView::ConnectFailed { .. } => ErrorKind::ConnectionError,
        AttemptView::TimedOut { .. } => ErrorKind::Timeout,
        _ => ErrorKind::IOError,
    }
}

/// The message a non-successful attempt carries.
pub open spec fn attempt_message(r: AttemptView) -> Seq<char>
    recommends
        r !is Closed,
{
    match r {
        AttemptView::Closed { .. } => Seq::empty(),
        AttemptView::ConnectFailed { message } => message,
        AttemptView::WriteFailed { message } => message,
        AttemptView::ReadFailed { message } => message,
        AttemptView::TimedOut { message } => message,
    }
}

/// What the supervising loop must do next for this payload.
#[derive(Debug)]
pub enum ProbeStep {
    /// Run one more whole connect-write-read attempt.
    Retry,
    /// The probe is finished, with this outcome.
    Done { outcome: Outcome },
}

/// Spec-level image of a `ProbeStep`.
pub enum StepView {
    Retry,
    Done { outcome: OutcomeView },
}

impl View for ProbeStep {
    type V = StepView;

    open spec fn view(&self) -> StepView {
        match self {
            ProbeStep::Retry => StepView::Retry,
            ProbeStep::Done { outcome } => StepView::Done { outcome: outcome@ },
        }
    }
}

/// The retry ledger of one payload's probe: how many whole attempts may
/// still run, and the last failure recorded. Retries reuse the same
/// payload value; the whole connect-write-read cycle is retried, never
/// a part of it.
#[derive(Debug)]
pub struct ProbeState {
    pub payload: String,
    pub attempts_left: u32,
    pub last_error: Option<ScanError>,
}

/// Spec-level image of a `ProbeState`.
pub struct ProbeView {
    pub payload: Seq<char>,
    pub attempts_left: u32,
    pub last_error: Option<ErrView>,
}

impl View for ProbeState {
    type V = ProbeView;

    open spec fn view(&self) -> ProbeView {
        ProbeView {
            payload: self.payload@,
            attempts_left: self.attempts_left,
            last_error: match self.last_error {
                Some(e) => Some(e@),
                None => None,
            },
        }
    }
}

/// One step of the retry policy: from the current ledger and the
/// observed attempt result to the next ledger and what to do. A closed
/// stream finishes the probe as a success at once; any failure is
/// recorded and costs one attempt, and the last recorded failure is
/// the outcome once the attempts are spent.
pub open spec fn probe_next(s: ProbeView, r: AttemptView) -> (ProbeView, StepView)
    recommends
        s.attempts_left >= 1,
{
    match r {
        AttemptView::Closed { response } => (
            s,
            StepView::Done {
                outcome: OutcomeView::Success { payload: s.payload, response },
            },
        ),
        _ => {
            let e = ErrView {
                kind: attempt_kind(r),
                payload: s.payload,
                message: attempt_message(r),
            };
            let s2 = ProbeView {
                payload: s.payload,
                attempts_left: (s.attempts_left - 1) as u32,
                last_error: Some(e),
            };
            if s.attempts_left <= 1 {
                (s2, StepView::Done { outcome: OutcomeView::Failure { error: e } })
            } else {
                (s2, StepView::Retry)
            }
        },
    }
}

/// The outcome a probe reaches from ledger `s` when its attempts come
/// to `events`, in order, one per attempt; `None` when the events run
/// out before the probe finishes.
pub open spec fn probe_run(s: ProbeView, events: Seq<AttemptView>) -> Option<OutcomeView>
    decreases events.len(),
{
    if events.len() == 0 {
        None
    } else {
        let next = probe_next(s, events[0]);
        match next.1 {
            StepView::Done { outcome } => Some(outcome),
            StepView::Retry => probe_run(next.0, events.skip(1)),
        }
    }
}

impl ProbeState {
    /// Starts the probe of one payload, with the given cap on whole
    /// attempts.
    pub fn new(payload: String, retry_limit: u32) -> (p: ProbeState)
        requires
            retry_limit >= 1,
        ensures
            p@ == (ProbeView { payload: payload@, attempts_left: retry_limit, last_error: None }),
    {
        ProbeState { payload, attempts_left: retry_limit, last_error: None }
    }

    /// Applies one attempt's observed result to the ledger, exactly as
    /// `probe_next` states it.
    pub fn on_attempt(&mut self, result: AttemptResult) -> (step: ProbeStep)
        requires
            old(self).attempts_left >= 1,
        ensures
            final(self)@ == probe_next(old(self)@, result@).0,
            step@ == probe_next(old(self)@, result@).1,
            step@ is Retry ==> final(self).attempts_left >= 1,
    {
        match result {
            AttemptResult::Closed { response } => ProbeStep::Done {
                outcome: Outcome::Success { payload: self.payload.clone(), response },
            },
            AttemptResult::ConnectFailed { message } => self.record_failure(
                ErrorKind::ConnectionError,
                message,
            ),
            AttemptResult::WriteFailed { message } => self.record_failure(
                ErrorKind::IOError,
                message,
            ),
            AttemptResult::ReadFailed { message } => self.record_failure(
                ErrorKind::IOError,
                message,
            ),
            AttemptResult::TimedOut { message } => self.record_failure(
                ErrorKind::Timeout,
                message,
            ),
        }
    }

    /// Records one failed attempt: one attempt is spent, the failure is
    /// kept as the last error, and it becomes the outcome if it was the
    /// last attempt.
    fn record_failure(&mut self, kind: ErrorKind, message: String) -> (step: ProbeStep)
        requires
            old(self).attempts_left >= 1,
        ensures
            final(self)@ == (ProbeView {
                payload: old(self).payload@,
                attempts_left: (old(self).attempts_left - 1) as u32,
                last_error: Some(
                    ErrView { kind, payload: old(self).payload@, message: message@ },
                ),
            }),
            step@ == (if old(self).attempts_left == 1 {
                StepView::Done {
                    outcome: OutcomeView::Failure {
                        error: ErrView { kind, payload: old(self).payload@, message: message@ },
                    },
                }
            } else {
                StepView::Retry
            }),
    {
        self.attempts_left = self.attempts_left - 1;
        self.last_error = Some(
            ScanError { kind, payload: self.payload.clone(), message: message.clone() },
        );
        if self.attempts_left == 0 {
            ProbeStep::Done {
                outcome: Outcome::Failure {
                    error: ScanError { kind, payload: self.payload.clone(), message },
                },
            }
        } else {
            ProbeStep::Retry
        }
    }
}

/// An attempt whose peer closed the stream after writing zero bytes
/// back finishes the probe at once as a `Success` carrying the empty
/// response: it is never taken for a `Failure`.
pub proof fn lemma_empty_close_is_success(s: ProbeView, r: AttemptView)
    requires
        s.attempts_left >= 1,
        r == (AttemptView::Closed { response: Seq::<char>::empty() }),
    ensures
        probe_next(s, r).1 == (StepView::Done {
            outcome: OutcomeView::Success { payload: s.payload, response: Seq::<char>::empty() },
        }),
        probe_next(s, r).0 == s,
{
}

/// A probe all of whose attempts fail with the same class `k` spends
/// every attempt and ends as a `Failure` of class `k`, carrying its
/// payload and the message of the last attempt.
pub proof fn lemma_uniform_failures_exhaust_retries(
    s: ProbeView,
    events: Seq<AttemptView>,
    k: ErrorKind,
)
    requires
        s.attempts_left >= 1,
        events.len() == s.attempts_left,
        forall|i: int|
            0 <= i < events.len() ==> !(#[trigger] events[i] is Closed) && attempt_kind(events[i])
                == k,
    ensures
        probe_run(s, events) == Some(
            OutcomeView::Failure {
                error: ErrView {
                    kind: k,
                    payload: s.payload,
                    message: attempt_message(events.last()),
                },
            },
        ),
    decreases events.len(),
{
    let next = probe_next(s, events[0]);
    if s.attempts_left > 1 {
        assert forall|i: int| 0 <= i < events.skip(1).len() implies !(#[trigger] events.skip(
            1,
        )[i] is Closed) && attempt_kind(events.skip(1)[i]) == k by {
            assert(events.skip(1)[i] == events[i + 1]);
        }
        lemma_uniform_failures_exhaust_retries(next.0, events.skip(1), k);
        assert(events.skip(1).last() == events.last());
    }
}

} // verus!
