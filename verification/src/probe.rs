//! Classifying the outcome of one HTTP probe.
//!
//! One probe issues one HTTP GET. Whatever the attempt produced is handed to
//! the library as a [`FetchEvent`]: the transport delivered a response with a
//! status code, the client reported a response status as a client-level
//! error, or the attempt failed below the HTTP level altogether. The
//! classification policy turns the event into an [`Outcome`]; every event
//! classifies, so one unreachable site never raises a fault.

use vstd::prelude::*;
use vstd::string::StringExecFns;

verus! {

/// The two ways a probe can fail.
#[derive(Clone, Copy, Debug, PartialEq, Eq, Structural)]
pub enum FailureKind {
    /// The server answered, and the client reported the response status as an
    /// error.
    HttpError,
    /// The attempt failed below the HTTP level: DNS, connection refused,
    /// timeout expiry, TLS, and the like.
    OtherError,
}

/// What one HTTP attempt produced, as the transport reported it.
#[derive(Debug)]
pub enum FetchEvent {
    /// The request resolved to a response with this status code.
    Response { status: u16 },
    /// The client reported a response status as a client-level error carrying
    /// the server's code.
    StatusError { status: u16 },
    /// The attempt failed below the HTTP level; `cause` describes why.
    TransportError { cause: String },
}

/// The classified result of one probe.
#[derive(Debug)]
pub enum Outcome {
    /// The request completed with this HTTP status code.
    Success { status: u16 },
    /// The request failed; `status` is the code reported to the caller (the
    /// server's code for an HTTP error, 0 otherwise).
    Failure { kind: FailureKind, status: u16, message: String },
}

/// The message reported for an HTTP-level failure.
pub open spec fn http_error_msg() -> Seq<char> {
    "HTTP error"@
}

/// The prefix of every transport-level failure message.
pub open spec fn other_error_prefix() -> Seq<char> {
    "Other error: "@
}

/// `p` is a prefix of `s`.
pub open spec fn starts_with(s: Seq<char>, p: Seq<char>) -> bool {
    s.len() >= p.len() && s.subrange(0, p.len() as int) == p
}

/// The view of an optional message.
pub open spec fn option_view(o: Option<String>) -> Option<Seq<char>> {
    match o {
        Option::None => Option::<Seq<char>>::None,
        Option::Some(s) => Option::Some(s@),
    }
}

impl FetchEvent {
    /// A response status code is a genuine HTTP status code.
    pub open spec fn wf(self) -> bool {
        match self {
            FetchEvent::Response { status } => 100 <= status <= 599,
            FetchEvent::StatusError { status } => true,
            FetchEvent::TransportError { cause } => true,
        }
    }
}

/// The status code reported for an event: the server's code when there was a
/// response, 0 for a transport-level failure.
pub open spec fn spec_status(e: FetchEvent) -> u16 {
    match e {
        FetchEvent::Response { status } => status,
        FetchEvent::StatusError { status } => status,
        FetchEvent::TransportError { cause } => 0,
    }
}

/// The error message reported for an event, absent on success.
pub open spec fn spec_error(e: FetchEvent) -> Option<Seq<char>> {
    match e {
        FetchEvent::Response { status } => Option::None,
        FetchEvent::StatusError { status } => Option::Some(http_error_msg()),
        FetchEvent::TransportError { cause } => Option::Some(other_error_prefix() + cause@),
    }
}

/// The failure kind of an event, absent on success.
pub open spec fn spec_kind(e: FetchEvent) -> Option<FailureKind> {
    match e {
        FetchEvent::Response { status } => Option::None,
        FetchEvent::StatusError { status } => Option::Some(FailureKind::HttpError),
        FetchEvent::TransportError { cause } => Option::Some(FailureKind::OtherError),
    }
}

impl Outcome {
    /// Success codes are genuine HTTP status codes; an HTTP-level failure
    /// carries exactly the message "HTTP error"; a transport-level failure
    /// carries code 0 and a message beginning with "Other error: ".
    pub open spec fn wf(self) -> bool {
        match self {
            Outcome::Success { status } => 100 <= status <= 599,
            Outcome::Failure { kind, status, message } => match kind {
                FailureKind::HttpError => message@ == http_error_msg(),
                FailureKind::OtherError => status == 0 && starts_with(
                    message@,
                    other_error_prefix(),
                ),
            },
        }
    }

    /// The status code this outcome reports to the caller.
    pub open spec fn reported_status(self) -> u16 {
        match self {
            Outcome::Success { status } => status,
            Outcome::Failure { kind, status, message } => status,
        }
    }

    /// The error message this outcome carries, absent on success.
    pub open spec fn error_view(self) -> Option<Seq<char>> {
        match self {
            Outcome::Success { status } => Option::None,
            Outcome::Failure { kind, status, message } => Option::Some(message@),
        }
    }

    /// The failure kind, absent on success.
    pub open spec fn failure_kind(self) -> Option<FailureKind> {
        match self {
            Outcome::Success { status } => Option::None,
            Outcome::Failure { kind, status, message } => Option::Some(kind),
        }
    }

    /// The error message this outcome carries — what a probe posts to the
    /// completion channel. Present exactly on failure.
    pub fn error_message(&self) -> (r: Option<String>)
        ensures
            option_view(r) == self.error_view(),
            r is Some <==> self is Failure,
    {
        match self {
            Outcome::Success { .. } => Option::None,
            Outcome::Failure { message, .. } => Option::Some(message.clone()),
        }
    }
}

/// The classification policy: a response becomes a success with its status
/// code; a status reported as a client-level error becomes an HTTP failure
/// that keeps the server's code; everything else becomes a transport failure
/// with code 0 and the cause appended to "Other error: ".
pub fn classify(e: FetchEvent) -> (o: Outcome)
    requires
        e.wf(),
    ensures
        o.wf(),
        o.reported_status() == spec_status(e),
        o.error_view() == spec_error(e),
        o.failure_kind() == spec_kind(e),
{
    match e {
        FetchEvent::Response { status } => Outcome::Success { status },
        FetchEvent::StatusError { status } => Outcome::Failure {
            kind: FailureKind::HttpError,
            status,
            message: String::from_str("HTTP error"),
        },
        FetchEvent::TransportError { cause } => {
            let mut message = String::from_str("Other error: ");
            message.append(cause.as_str());
            proof {
                assert(message@.subrange(0, other_error_prefix().len() as int)
                    =~= other_error_prefix());
            }
            Outcome::Failure { kind: FailureKind::OtherError, status: 0, message }
        },
    }
}

/// What `collect_status` reports for an event and an elapsed time: the
/// reported status code, the elapsed milliseconds unchanged, and the error
/// message (absent on success).
pub open spec fn spec_collect_status(e: FetchEvent, elapsed_ms: i64) -> (u16, i64, Option<
    Seq<char>,
>) {
    (spec_status(e), elapsed_ms, spec_error(e))
}

/// The computing half of one probe: given what the HTTP attempt produced and
/// how long it took, report status code, elapsed milliseconds and optional
/// error message. Every event is reported as a value; none raises a fault.
pub fn collect_status(event: FetchEvent, elapsed_ms: i64) -> (r: (u16, i64, Option<String>))
    requires
        event.wf(),
    ensures
        (r.0, r.1, option_view(r.2)) == spec_collect_status(event, elapsed_ms),
{
    let o = classify(event);
    match o {
        Outcome::Success { status } => (status, elapsed_ms, Option::None),
        Outcome::Failure { status, message, .. } => (status, elapsed_ms, Option::Some(message)),
    }
}

/// A success outcome carries a genuine HTTP status code, no error message
/// and no failure kind.
pub proof fn lemma_success_outcome(o: Outcome)
    requires
        o.wf(),
        o is Success,
    ensures
        100 <= o.reported_status() <= 599,
        o.error_view() is None,
        o.failure_kind() is None,
{
}

/// An event classified as an HTTP-level failure carries exactly the message
/// "HTTP error", and the status code it reports is the server's returned
/// code, not discarded.
pub proof fn lemma_http_error_reported(e: FetchEvent)
    requires
        spec_kind(e) == Option::Some(FailureKind::HttpError),
    ensures
        spec_error(e) == Option::Some(http_error_msg()),
        e matches FetchEvent::StatusError { status } && spec_status(e) == status,
{
}

/// An event classified as a transport-level failure reports status code 0
/// and a message that begins with "Other error: ".
pub proof fn lemma_other_error_reported(e: FetchEvent)
    requires
        spec_kind(e) == Option::Some(FailureKind::OtherError),
    ensures
        spec_status(e) == 0,
        spec_error(e) is Some,
        starts_with(spec_error(e).unwrap(), other_error_prefix()),
{
    let m = spec_error(e).unwrap();
    assert(m.subrange(0, other_error_prefix().len() as int) =~= other_error_prefix());
}

/// Classification depends on the fetch event alone: probing a stable endpoint
/// twice reports the same status code and the same error message, however the
/// two timings differ.
pub proof fn lemma_classification_idempotent(e: FetchEvent, t1: i64, t2: i64)
    ensures
        spec_collect_status(e, t1).0 == spec_collect_status(e, t2).0,
        spec_collect_status(e, t1).2 == spec_collect_status(e, t2).2,
{
}

/// The life of one probe unit: it is pending, then requesting, then completed
/// with its classified outcome. There is no retry and no re-entry into
/// `Requesting`: the only transition out of `Pending` is [`start_probe`], the
/// only one out of `Requesting` is [`finish_probe`], and `Completed` is
/// terminal.
#[derive(Debug)]
pub enum ProbeState {
    Pending,
    Requesting,
    Completed { outcome: Outcome },
}

impl ProbeState {
    /// A completed probe carries a well-formed outcome.
    pub open spec fn wf(self) -> bool {
        match self {
            ProbeState::Completed { outcome } => outcome.wf(),
            _ => true,
        }
    }

    /// Only `Completed` is terminal.
    pub open spec fn is_terminal(self) -> bool {
        self is Completed
    }
}

/// Dispatching a pending probe: it moves to `Requesting`, where its single
/// HTTP attempt runs.
pub fn start_probe(s: ProbeState) -> (t: ProbeState)
    requires
        s is Pending,
    ensures
        t is Requesting,
        t.wf(),
{
    ProbeState::Requesting
}

/// Resolving a requesting probe: the event its HTTP attempt produced is
/// classified and the probe completes. The resulting state is terminal.
pub fn finish_probe(s: ProbeState, e: FetchEvent) -> (t: ProbeState)
    requires
        s is Requesting,
        e.wf(),
    ensures
        t.is_terminal(),
        t.wf(),
        t matches ProbeState::Completed { outcome } && {
            &&& outcome.reported_status() == spec_status(e)
            &&& outcome.error_view() == spec_error(e)
            &&& outcome.failure_kind() == spec_kind(e)
        },
{
    ProbeState::Completed { outcome: classify(e) }
}

} // verus!
