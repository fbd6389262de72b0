//! Capture time and its rendering, through chrono.
//!
//! The library holds a timestamp as plain milliseconds since the Unix epoch;
//! only reading the clock and rendering an instant are left to chrono.

use vstd::prelude::*;

verus! {

/// The rendering chrono gives an instant expressed as milliseconds since the
/// Unix epoch (the empty sequence for an instant outside chrono's range).
pub uninterp spec fn utc_string_of(ms: int) -> Seq<char>;

/// Relies on chrono::Utc::now, which reads the clock as a duration since the
/// Unix epoch: the millisecond count is non-negative.
#[verifier::external_body]
pub(crate) fn now_utc_millis() -> (r: i64)
    ensures
        0 <= r,
{
    chrono::Utc::now().timestamp_millis()
}

/// Relies on chrono::DateTime::from_timestamp_millis and the `Display`
/// rendering of `DateTime<Utc>`: both depend on the instant alone, so the
/// result is a function of `ms`.
#[verifier::external_body]
pub(crate) fn format_utc_millis(ms: i64) -> (r: String)
    ensures
        r@ == utc_string_of(ms as int),
{
    match chrono::DateTime::<chrono::Utc>::from_timestamp_millis(ms) {
        Some(t) => t.to_string(),
        None => String::new(),
    }
}

} // verus!
