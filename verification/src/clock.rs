//! Timestamps: ISO 8601 parsing and elapsed seconds (chrono), as plain
//! `(seconds, nanoseconds)` pairs since the Unix epoch.
use vstd::prelude::*;

verus! {

/// What `str::parse::<DateTime<Utc>>` yields for a text, as the timestamp's
/// `(seconds, sub-second nanoseconds)`.
pub uninterp spec fn spec_utc_parse(s: Seq<char>) -> Option<(int, int)>;

/// `str::parse::<chrono::DateTime<chrono::Utc>>` followed by
/// `DateTime::timestamp` / `DateTime::timestamp_subsec_nanos`. The contract
/// only names the result; the RFC 3339 grammar is chrono's.
#[verifier::external_body]
pub(crate) fn utc_parse(s: &str) -> (r: Option<(i64, u32)>)
    ensures
        match r {
            Some(t) => spec_utc_parse(s@) == Some((t.0 as int, t.1 as int)),
            None => spec_utc_parse(s@) is None,
        },
{
    s.parse::<chrono::DateTime<chrono::Utc>>().ok().map(|t| (t.timestamp(), t.timestamp_subsec_nanos()))
}

/// Whole seconds from `start` to `end` (`TimeDelta::num_seconds` of
/// `end - start`), `None` when a pair is not a representable instant.
pub uninterp spec fn spec_utc_seconds_between(end: (int, int), start: (int, int)) -> Option<int>;

/// `DateTime::<Utc>::from_timestamp` for both instants, then
/// `(end - start).num_seconds()`. The contract names the result; `None`
/// exactly when `from_timestamp` refuses one of the pairs.
#[verifier::external_body]
pub(crate) fn utc_seconds_between(end: (i64, u32), start: (i64, u32)) -> (r: Option<i64>)
    ensures
        match r {
            Some(d) => spec_utc_seconds_between(
                (end.0 as int, end.1 as int),
                (start.0 as int, start.1 as int),
            ) == Some(d as int),
            None => spec_utc_seconds_between(
                (end.0 as int, end.1 as int),
                (start.0 as int, start.1 as int),
            ) is None,
        },
{
    let e = chrono::DateTime::from_timestamp(end.0, end.1)?;
    let s = chrono::DateTime::from_timestamp(start.0, start.1)?;
    Some((e - s).num_seconds())
}

pub open spec fn ts_view(t: (i64, u32)) -> (int, int) {
    (t.0 as int, t.1 as int)
}

/// A parsed instant after the epoch; pre-epoch values (e.g. `0001-01-01` of
/// an unstarted step) count as absent.
pub open spec fn parse_iso_spec(s: Seq<char>) -> Option<(int, int)> {
    match spec_utc_parse(s) {
        Some(t) => if t.0 > 0 {
            Some(t)
        } else {
            None
        },
        None => None,
    }
}

/// Parse an ISO8601 timestamp. None for unparsable or pre-epoch values.
pub fn parse_iso(s: &str) -> (r: Option<(i64, u32)>)
    ensures
        match r {
            Some(t) => parse_iso_spec(s@) == Some(ts_view(t)),
            None => parse_iso_spec(s@) is None,
        },
{
    match utc_parse(s) {
        Some(t) => if t.0 > 0 {
            Some(t)
        } else {
            None
        },
        None => None,
    }
}

} // verus!
