use time::format_description::well_known::Rfc3339;
use time::OffsetDateTime;
use vstd::prelude::*;

verus! {

/// The instant that a text in RFC 3339 form denotes, in nanoseconds since the
/// Unix epoch, or `None` where the text is no date of that form.
pub uninterp spec fn rfc3339_unix_nanos(text: Seq<char>) -> Option<i128>;

/// Parses `text` with `time::OffsetDateTime::parse` under the well-known
/// `Rfc3339` format and reads the instant off with
/// `OffsetDateTime::unix_timestamp_nanos`.
///
/// Trusted: the result is the named instant of the text. Two instants compare
/// as their nanosecond counts do, which is how `OffsetDateTime` orders them.
#[verifier::external_body]
pub(crate) fn parse_rfc3339(text: &str) -> (instant: Option<i128>)
    ensures
        instant == rfc3339_unix_nanos(text@),
{
    match OffsetDateTime::parse(text, &Rfc3339) {
        Ok(moment) => Some(moment.unix_timestamp_nanos()),
        Err(_) => None,
    }
}

/// The instant of an optional date text: absent where the text is absent or
/// is no RFC 3339 date.
pub open spec fn spec_instant(text: Option<Seq<char>>) -> Option<i128> {
    match text {
        Some(t) => rfc3339_unix_nanos(t),
        None => None,
    }
}

/// Reads the instant of an optional date text.
pub fn instant_of(text: &Option<String>) -> (instant: Option<i128>)
    ensures
        instant == spec_instant(text.deep_view()),
{
    match text {
        Some(t) => parse_rfc3339(t.as_str()),
        None => None,
    }
}

} // verus!
