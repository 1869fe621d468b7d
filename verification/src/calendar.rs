//! Time zones and instants as a provider writes them.
//!
//! The identifiers of time zones are known to `chrono-tz`, and timestamps
//! are parsed by `chrono`. Verus sees neither. What this module claims of
//! them is written in the contracts of [`is_timezone`] and
//! [`parse_instant`]; nothing here proves those claims.

use vstd::prelude::*;
use crate::models::Timestamp;

verus! {

/// `id` is the identifier of a time zone, letter for letter as the IANA
/// database writes it.
pub uninterp spec fn timezone_known(id: Seq<char>) -> bool;

/// The instant that `text` denotes as a timestamp with an offset from UTC:
/// the seconds since the start of 1970 in UTC and the nanoseconds within
/// the second. Nothing where `text` is no such timestamp.
pub uninterp spec fn instant_of(text: Seq<char>) -> Option<(i64, u32)>;

/// Calls the `FromStr` of `chrono_tz::Tz`, which looks `id` up among the
/// names of the time zones. The contract claims that the outcome depends on
/// `id` alone.
#[verifier::external_body]
pub(crate) fn is_timezone(id: &str) -> (r: bool)
    ensures
        r == timezone_known(id@),
{
    id.parse::<chrono_tz::Tz>().is_ok()
}

/// Calls the `FromStr` of `chrono::DateTime<FixedOffset>`, a lenient reader
/// of RFC 3339, and takes `timestamp` and `timestamp_subsec_nanos` of what
/// it gives. The contract claims that the outcome depends on `text` alone.
#[verifier::external_body]
pub(crate) fn parse_instant(text: &str) -> (r: Option<Timestamp>)
    ensures
        match r {
            Some(t) => instant_of(text@) == Some((t.secs, t.nanos)),
            None => instant_of(text@).is_none(),
        },
{
    text.parse::<chrono::DateTime<chrono::FixedOffset>>().ok().map(
        |t| Timestamp { secs: t.timestamp(), nanos: t.timestamp_subsec_nanos() },
    )
}

} // verus!
