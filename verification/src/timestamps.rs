//! Timestamp re-formatting, done by `chrono`.

use vstd::prelude::*;

verus! {

/// RFC 3339 form of a Jira timestamp (`%Y-%m-%dT%H:%M:%S%.3f%z`), `None`
/// when `ts` is not one.
pub uninterp spec fn jira_time_as_rfc3339(ts: Seq<char>) -> Option<Seq<char>>;

/// `chrono::DateTime::parse_from_str(ts, "%Y-%m-%dT%H:%M:%S%.3f%z")` then
/// `DateTime::to_rfc3339`. The contract only ties the result to `ts`.
#[verifier::external_body]
pub(crate) fn jira_time_to_rfc3339(ts: &str) -> (r: Option<String>)
    ensures
        r.is_some() == jira_time_as_rfc3339(ts@).is_some(),
        r matches Some(s) ==> s@ == jira_time_as_rfc3339(ts@).unwrap(),
{
    chrono::DateTime::parse_from_str(ts, "%Y-%m-%dT%H:%M:%S%.3f%z").ok().map(|dt| dt.to_rfc3339())
}

/// Second-precision RFC 3339 form (`Z` for UTC) of an RFC 3339 timestamp,
/// `None` when `ts` is not one.
pub uninterp spec fn rfc3339_in_seconds(ts: Seq<char>) -> Option<Seq<char>>;

/// `chrono::DateTime::parse_from_rfc3339(ts)` then
/// `to_rfc3339_opts(SecondsFormat::Secs, true)`. The contract only ties the
/// result to `ts`.
#[verifier::external_body]
pub(crate) fn rfc3339_to_seconds(ts: &str) -> (r: Option<String>)
    ensures
        r.is_some() == rfc3339_in_seconds(ts@).is_some(),
        r matches Some(s) ==> s@ == rfc3339_in_seconds(ts@).unwrap(),
{
    chrono::DateTime::parse_from_rfc3339(ts).ok().map(
        |dt| dt.to_rfc3339_opts(chrono::SecondsFormat::Secs, true),
    )
}

} // verus!
