use vstd::prelude::*;

verus! {

/// A UTC instant as plain values: whole seconds since the Unix epoch and the
/// nanoseconds within that second (values of one billion and above mark a leap second).
#[derive(Debug, Clone, Copy, PartialEq, Eq, Structural)]
pub struct Timestamp {
    pub secs: i64,
    pub nanos: u32,
}

/// What `chrono` reads from a string as a UTC date and time (`str::parse::<DateTime<Utc>>`,
/// a relaxed RFC 3339 form), or `None` where it reports a parse error.
pub uninterp spec fn utc_parse(s: Seq<char>) -> Option<Timestamp>;

/// Parses a UTC date and time through `chrono` (`<DateTime<Utc> as FromStr>::from_str`).
/// The contract claims only that the result is a function of the string, named `utc_parse`.
#[verifier::external_body]
pub(crate) fn parse_utc(s: &str) -> (r: Option<Timestamp>)
    ensures
        r == utc_parse(s@),
{
    match s.parse::<chrono::DateTime<chrono::Utc>>() {
        Ok(t) => Some(Timestamp { secs: t.timestamp(), nanos: t.timestamp_subsec_nanos() }),
        Err(_) => None,
    }
}

} // verus!
