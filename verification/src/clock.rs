//! Timestamp handling at the library's edge: RFC 3339 parsing and the
//! current wall-clock time, both obtained through chrono.

use vstd::prelude::*;

verus! {

/// The Unix timestamp, in whole seconds, that an RFC 3339 date-and-time
/// text denotes, or `None` where the text is not a valid RFC 3339 value.
pub uninterp spec fn rfc3339_seconds(s: Seq<char>) -> Option<i64>;

/// Relies on chrono's `DateTime::parse_from_rfc3339` and
/// `DateTime::timestamp`: both depend on the text alone, so together they
/// give one well-defined result per input, named by `rfc3339_seconds`.
#[verifier::external_body]
pub(crate) fn parse_rfc3339_seconds(s: &str) -> (r: Option<i64>)
    ensures
        r == rfc3339_seconds(s@),
{
    match chrono::DateTime::parse_from_rfc3339(s) {
        Ok(dt) => Some(dt.timestamp()),
        Err(_) => None,
    }
}

/// Relies on chrono's `Utc::now` and `DateTime::timestamp`: whole seconds
/// since the Unix epoch at the moment of the call. Nothing can be promised
/// of the clock's reading.
#[verifier::external_body]
pub(crate) fn now_epoch_seconds() -> i64 {
    chrono::Utc::now().timestamp()
}

} // verus!
