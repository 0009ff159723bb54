use vstd::prelude::*;

verus! {

/// The closed set of failure classes a probe can end in.
///
/// `Timeout` is a single read exceeding the response-wait budget,
/// `ConnectionError` a socket that could not be established, and
/// `IOError` any other write or read failure.
#[derive(Clone, Copy, PartialEq, Eq, Structural, Debug)]
pub enum ErrorKind {
    Timeout,
    ConnectionError,
    IOError,
}

/// A failed probe: its class, the payload that was being sent, and the
/// message of the last underlying I/O error.
#[derive(Debug)]
pub struct ScanError {
    pub kind: ErrorKind,
    pub payload: String,
    pub message: String,
}

/// Spec-level image of a `ScanError`.
pub struct ErrView {
    pub kind: ErrorKind,
    pub payload: Seq<char>,
    pub message: Seq<char>,
}

impl View for ScanError {
    type V = ErrView;

    open spec fn view(&self) -> ErrView {
        ErrView { kind: self.kind, payload: self.payload@, message: self.message@ }
    }
}

impl ScanError {
    pub fn new(k: ErrorKind, msg: &str, payload: &str) -> (e: ScanError)
        ensures
            e@ == (ErrView { kind: k, payload: payload@, message: msg@ }),
    {
        ScanError { kind: k, message: msg.to_owned(), payload: payload.to_owned() }
    }

    pub fn kind(&self) -> (k: &ErrorKind)
        ensures
            *k == self.kind,
    {
        &self.kind
    }
}

/// The final classified result of probing one payload, retries included.
///
/// An empty response is a `Success`: a peer that accepts, reads, and closes
/// without answering is itself a signal, and must stay distinguishable from
/// any `Failure`.
#[derive(Debug)]
pub enum Outcome {
    Success { payload: String, response: String },
    Failure { error: ScanError },
}

/// Spec-level image of an `Outcome`.
pub enum OutcomeView {
    Success { payload: Seq<char>, response: Seq<char> },
    Failure { error: ErrView },
}

impl View for Outcome {
    type V = OutcomeView;

    open spec fn view(&self) -> OutcomeView {
        match self {
            Outcome::Success { payload, response } => OutcomeView::Success {
                payload: payload@,
                response: response@,
            },
            Outcome::Failure { error } => OutcomeView::Failure { error: error@ },
        }
    }
}

} // verus!
