//! Points in time as the device reports them.

use vstd::prelude::*;

verus! {

/// An instant on the UTC time line: whole seconds since 1970-01-01T00:00:00Z
/// (leap seconds not counted) and the nanoseconds since that second began.
/// During a leap second `nanos` runs on past 999,999,999.
#[derive(Clone, Copy, Debug, PartialEq, Eq)]
pub struct Timestamp {
    pub seconds: i64,
    pub nanos: u32,
}

/// The instant that `chrono` reads from `text` as a date and time in its
/// relaxed RFC 3339 form, where it reads one.
pub uninterp spec fn instant_of(text: Seq<char>) -> Option<Timestamp>;

/// Calls `chrono`'s `FromStr` for `DateTime<Utc>` and takes the instant out
/// with `DateTime::timestamp` and `DateTime::timestamp_subsec_nanos`. The
/// contract only names the outcome: the same text gives the same instant, or
/// none.
#[verifier::external_body]
pub(crate) fn parse_instant(text: &str) -> (instant: Option<Timestamp>)
    ensures
        instant == instant_of(text@),
{
    text.parse::<chrono::DateTime<chrono::Utc>>().ok().map(
        |at| Timestamp { seconds: at.timestamp(), nanos: at.timestamp_subsec_nanos() },
    )
}

} // verus!
