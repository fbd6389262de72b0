//! The record of one completed probe, and its per-site report line.

use vstd::prelude::*;
use vstd::string::StringExecFns;

use crate::probe::classify;
use crate::probe::spec_error;
use crate::probe::spec_kind;
use crate::probe::spec_status;
use crate::probe::FetchEvent;
use crate::probe::Outcome;
use crate::text::dec_digits;
use crate::text::i64_to_string;
use crate::text::u64_to_string;
use crate::time::format_utc_millis;
use crate::time::now_utc_millis;
use crate::time::utc_string_of;

verus! {

/// What one probe reports about one URL: the classified outcome, the elapsed
/// time of the single request attempt in milliseconds, and the capture time
/// in milliseconds since the Unix epoch. Immutable once created.
#[derive(Debug)]
pub struct WebsiteStatus {
    pub url: String,
    pub outcome: Outcome,
    pub response_time: i64,
    pub timestamp: i64,
}

impl WebsiteStatus {
    /// The outcome is well-formed, and the elapsed time — measured even on
    /// failure — and the capture time are non-negative.
    pub open spec fn wf(self) -> bool {
        &&& self.outcome.wf()
        &&& self.response_time >= 0
        &&& self.timestamp >= 0
    }

    /// Builds the record with an explicit capture time.
    pub fn at_time(url: String, outcome: Outcome, response_time: i64, timestamp: i64) -> (w:
        WebsiteStatus)
        requires
            outcome.wf(),
            response_time >= 0,
            timestamp >= 0,
        ensures
            w.url == url,
            w.outcome == outcome,
            w.response_time == response_time,
            w.timestamp == timestamp,
            w.wf(),
    {
        WebsiteStatus { url, outcome, response_time, timestamp }
    }

    /// Builds the record for a probe that has just resolved, capturing the
    /// time now.
    pub fn new(url: String, outcome: Outcome, response_time: i64) -> (w: WebsiteStatus)
        requires
            outcome.wf(),
            response_time >= 0,
        ensures
            w.url == url,
            w.outcome == outcome,
            w.response_time == response_time,
            w.wf(),
    {
        let timestamp = now_utc_millis();
        WebsiteStatus::at_time(url, outcome, response_time, timestamp)
    }

    /// The computing half of one whole probe: classifies what the HTTP
    /// attempt produced and builds the record, capturing the time now.
    /// Every event — success, HTTP error or transport failure — becomes a
    /// record; none raises a fault.
    pub fn probe_result(url: String, event: FetchEvent, elapsed_ms: i64) -> (w: WebsiteStatus)
        requires
            event.wf(),
            elapsed_ms >= 0,
        ensures
            w.url == url,
            w.response_time == elapsed_ms,
            w.wf(),
            w.outcome.reported_status() == spec_status(event),
            w.outcome.error_view() == spec_error(event),
            w.outcome.failure_kind() == spec_kind(event),
    {
        let outcome = classify(event);
        WebsiteStatus::new(url, outcome, elapsed_ms)
    }

    /// The middle of the report line: the status code on success, the error
    /// message on failure.
    pub open spec fn spec_status_part(self) -> Seq<char> {
        match self.outcome {
            Outcome::Success { status } => " = status: "@ + dec_digits(status as nat),
            Outcome::Failure { kind, status, message } => " = error: "@ + message@,
        }
    }

    /// The whole per-site report line: URL, status or error, elapsed
    /// milliseconds, capture time.
    pub open spec fn spec_display_line(self) -> Seq<char> {
        "For "@ + self.url@ + self.spec_status_part() + ", response time: "@ + dec_digits(
            self.response_time as nat,
        ) + " ms, timestamp: "@ + utc_string_of(self.timestamp as int)
    }

    /// Renders the per-site report line.
    pub fn display(&self) -> (r: String)
        requires
            self.wf(),
        ensures
            r@ == self.spec_display_line(),
    {
        let mut line = String::from_str("For ");
        line.append(self.url.as_str());
        match &self.outcome {
            Outcome::Success { status } => {
                line.append(" = status: ");
                let st = u64_to_string(*status as u64);
                line.append(st.as_str());
            },
            Outcome::Failure { message, .. } => {
                line.append(" = error: ");
                line.append(message.as_str());
            },
        }
        line.append(", response time: ");
        let rt = i64_to_string(self.response_time);
        line.append(rt.as_str());
        line.append(" ms, timestamp: ");
        let ts = format_utc_millis(self.timestamp);
        line.append(ts.as_str());
        proof {
            assert(line@ =~= self.spec_display_line());
        }
        line
    }
}

} // verus!
