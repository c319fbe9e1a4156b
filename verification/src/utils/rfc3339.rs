//! Instants written as RFC 3339 text.

use vstd::prelude::*;
use crate::utils::instant::{representable, Instant};

verus! {

/// The instant that `text` denotes as an RFC 3339 date-time, as whole
/// seconds since the Unix epoch and nanoseconds past that second; `None`
/// where `text` is no such date-time. The offset written in the text is
/// applied, so the instant is in UTC.
pub uninterp spec fn rfc3339_instant(text: Seq<char>) -> Option<(int, int)>;

/// The instant (`secs`, `nanos`) written in RFC 3339 in UTC, to the whole
/// second and closed by `Z`.
pub uninterp spec fn rfc3339_seconds_text(secs: int, nanos: int) -> Seq<char>;

/// chrono's `ParseError`, carried through as it is; nothing is read from it.
#[verifier::external_type_specification]
#[verifier::external_body]
pub struct ExParseError(chrono::ParseError);

/// Calls chrono's `DateTime::parse_from_rfc3339`, moves the result to UTC
/// with `with_timezone` and reads `timestamp` and `timestamp_subsec_nanos`.
/// Claims that success and the two numbers are a function of the text, and
/// that the numbers name an instant chrono can hold, which is what it
/// documents of every timestamp it hands out.
#[verifier::external_body]
fn chrono_parse_rfc3339(text: &str) -> (r: Result<(i64, u32), chrono::ParseError>)
    ensures
        match r {
            Ok((secs, nanos)) => rfc3339_instant(text@) == Some((secs as int, nanos as int))
                && representable(secs as int, nanos as int),
            Err(_) => rfc3339_instant(text@) is None,
        },
{
    let parsed = chrono::DateTime::parse_from_rfc3339(text)?;
    let utc = parsed.with_timezone(&chrono::Utc);
    Ok((utc.timestamp(), utc.timestamp_subsec_nanos()))
}

/// Calls chrono: `DateTime::from_timestamp`, then
/// `to_rfc3339_opts(SecondsFormat::Secs, true)`. Claims only that the text
/// is a function of the two numbers.
#[verifier::external_body]
fn chrono_rfc3339_seconds(secs: i64, nanos: u32) -> (r: String)
    requires
        representable(secs as int, nanos as int),
    ensures
        r@ == rfc3339_seconds_text(secs as int, nanos as int),
{
    let utc = chrono::DateTime::from_timestamp(secs, nanos).unwrap();
    utc.to_rfc3339_opts(chrono::SecondsFormat::Secs, true)
}

/// The instant that `text` denotes, if it denotes one.
pub open spec fn denoted(text: Seq<char>) -> Option<Instant> {
    match rfc3339_instant(text) {
        Some((secs, nanos)) => Some(Instant::at(secs, nanos)),
        None => None,
    }
}

/// Reads an RFC 3339 date-time, with any offset, as an instant in UTC.
pub fn parse_rfc3339(text: &str) -> (r: Option<Instant>)
    ensures
        r == denoted(text@),
{
    match chrono_parse_rfc3339(text) {
        Ok((secs, nanos)) => Instant::new(secs, nanos),
        Err(_) => None,
    }
}

/// Writes `instant` in RFC 3339 in UTC, to the whole second and closed by
/// `Z`. Fractions of a second are dropped, not rounded.
pub fn to_rfc3339_seconds(instant: &Instant) -> (r: String)
    ensures
        r@ == rfc3339_seconds_text(instant.seconds(), instant.subsec_nanos()),
{
    chrono_rfc3339_seconds(instant.timestamp(), instant.timestamp_subsec_nanos())
}

} // verus!
