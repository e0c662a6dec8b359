//! Wall-clock time, read through chrono.
use vstd::prelude::*;

verus! {

/// Relies on chrono's `Utc::now` and `DateTime::timestamp_millis`: the current
/// wall-clock time as milliseconds since the Unix epoch. Nothing is promised of
/// the value: the clock may jump either way between two calls.
#[verifier::external_body]
pub(crate) fn now_millis() -> (r: i64) {
    chrono::Utc::now().timestamp_millis()
}

/// The instant written by an RFC 3339 timestamp, in milliseconds since the epoch,
/// or `None` when chrono does not accept the text.
pub uninterp spec fn rfc3339_millis(s: Seq<char>) -> Option<int>;

/// Relies on chrono's `DateTime::parse_from_rfc3339` and `DateTime::timestamp_millis`:
/// the result depends on the text alone; on failure the error is chrono's message.
#[verifier::external_body]
pub(crate) fn parse_rfc3339_millis(s: &str) -> (r: Result<i64, String>)
    ensures
        r.is_ok() == rfc3339_millis(s@).is_some(),
        r.is_ok() ==> r->Ok_0 == rfc3339_millis(s@).unwrap(),
{
    chrono::DateTime::parse_from_rfc3339(s).map(|d| d.timestamp_millis()).map_err(|e| e.to_string())
}

} // verus!
