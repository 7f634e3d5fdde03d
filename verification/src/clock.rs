//! Points in time and their RFC 3339 text.
use vstd::prelude::*;

verus! {

/// A point in time: seconds since the Unix epoch and nanoseconds within
/// the second.
#[derive(Clone, Copy, Debug, PartialEq, Eq, Structural)]
pub struct Timestamp {
    pub secs: i64,
    pub nanos: u32,
}

/// The RFC 3339 text of a point in time in UTC, where the calendar reaches
/// that far.
pub uninterp spec fn rfc3339(secs: i64, nanos: u32) -> Option<Seq<char>>;

/// `chrono::DateTime::from_timestamp` followed by `to_rfc3339`: a text that
/// depends on the point in time alone, or nothing when it lies outside
/// chrono's calendar.
#[verifier::external_body]
fn chrono_rfc3339(secs: i64, nanos: u32) -> (r: Option<String>)
    ensures
        match r {
            Some(s) => rfc3339(secs, nanos) == Some(s@),
            None => rfc3339(secs, nanos) is None,
        },
{
    chrono::DateTime::<chrono::Utc>::from_timestamp(secs, nanos).map(|t| t.to_rfc3339())
}

/// The text of an optional point in time.
pub open spec fn time_text(t: Option<Timestamp>) -> Option<Seq<char>> {
    match t {
        Some(t) => rfc3339(t.secs, t.nanos),
        None => None,
    }
}

/// The RFC 3339 text of an optional point in time.
pub fn format_time(t: Option<Timestamp>) -> (r: Option<String>)
    ensures
        crate::text::opt_text(r) == time_text(t),
{
    match t {
        Some(t) => chrono_rfc3339(t.secs, t.nanos),
        None => None,
    }
}

} // verus!
