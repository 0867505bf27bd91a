use vstd::prelude::*;

use crate::model::UtcInstant;

verus! {

/// The instant an RFC 3339 timestamp text denotes, as seconds since the
/// Unix epoch (UTC) paired with the nanoseconds within that second, or
/// `None` where the text is not a valid timestamp. The value depends on
/// the text alone.
pub uninterp spec fn rfc3339_instant(s: Seq<char>) -> Option<(i64, u32)>;

/// Relies on chrono's `DateTime::parse_from_rfc3339` to parse the
/// timestamp text, and on its `timestamp` and `timestamp_subsec_nanos`
/// accessors to read the parsed instant out as plain values.
#[verifier::external_body]
pub(crate) fn parse_rfc3339(s: &str) -> (r: Option<UtcInstant>)
    ensures
        (match r {
            Some(t) => rfc3339_instant(s@) == Some((t.secs, t.nanos)),
            None => rfc3339_instant(s@) is None,
        }),
{
    match chrono::DateTime::parse_from_rfc3339(s) {
        Ok(dt) => Some(
            UtcInstant { secs: dt.timestamp(), nanos: dt.timestamp_subsec_nanos() },
        ),
        Err(_) => None,
    }
}

} // verus!
