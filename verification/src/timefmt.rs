//! The RFC 3339 timestamp texts the records carry, handled through the
//! `time` crate.
//!
//! Inside the library a point in time is a Unix timestamp in whole seconds;
//! the texts stored in the records are written and read by the two wrappers
//! below.

use vstd::prelude::*;

verus! {

/// The RFC 3339 text of the timestamp `ts`, or the empty text where `ts`
/// lies outside the years the `time` crate can represent.
pub uninterp spec fn rfc3339_of(ts: i64) -> Seq<char>;

/// The timestamp an RFC 3339 text denotes, or zero (the Unix epoch) where
/// the text does not parse.
pub uninterp spec fn rfc3339_ts_of(s: Seq<char>) -> i64;

/// Relies on `time::OffsetDateTime::format` with the well-known RFC 3339
/// description: the text depends on the timestamp alone. A timestamp outside
/// the supported years, or a formatting failure, yields the empty text, as
/// the callers' `unwrap_or_default` did.
#[verifier::external_body]
pub(crate) fn format_rfc3339_or_empty(ts: i64) -> (r: String)
    ensures
        r@ == rfc3339_of(ts),
{
    time::OffsetDateTime::from_unix_timestamp(ts)
        .map(|t| t.format(&time::format_description::well_known::Rfc3339).unwrap_or_default())
        .unwrap_or_default()
}

/// Relies on `time::OffsetDateTime::parse` with the well-known RFC 3339
/// description: the value read depends on the text alone. A text that does
/// not parse falls back to the Unix epoch, as the callers' `unwrap_or` did.
#[verifier::external_body]
pub(crate) fn parse_rfc3339_or_epoch(s: &str) -> (r: i64)
    ensures
        r == rfc3339_ts_of(s@),
{
    time::OffsetDateTime::parse(s, &time::format_description::well_known::Rfc3339)
        .unwrap_or(time::OffsetDateTime::UNIX_EPOCH)
        .unix_timestamp()
}

} // verus!
