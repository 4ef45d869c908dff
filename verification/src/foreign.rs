//! Declarations of the types and calls of other crates that the library's
//! logic relies on. Everything in this file is trusted, not proved.

use crate::text::decimal_u16;
use vstd::prelude::*;

verus! {

/// `http::Uri`, a parsed URI.
#[verifier::external_type_specification]
#[verifier::external_body]
pub struct ExUri(http::Uri);

/// `http::uri::InvalidUri`, the error of a URI that failed to parse.
#[verifier::external_type_specification]
#[verifier::external_body]
pub struct ExInvalidUri(http::uri::InvalidUri);

/// `std::num::ParseIntError`, the error of an integer that failed to parse.
#[verifier::external_type_specification]
#[verifier::external_body]
pub struct ExParseIntError(std::num::ParseIntError);

/// `tokio::time::error::Elapsed`, the error of a deadline that passed.
#[verifier::external_type_specification]
#[verifier::external_body]
pub struct ExElapsed(tokio::time::error::Elapsed);

/// `time::error::ComponentRange`, a date or time component out of range.
#[verifier::external_type_specification]
#[verifier::external_body]
pub struct ExComponentRange(time::error::ComponentRange);

/// What `<http::Uri as FromStr>::from_str` gives for a text.
pub uninterp spec fn parsed_uri(text: Seq<char>) -> Result<http::Uri, http::uri::InvalidUri>;

/// Calls `<http::Uri as FromStr>::from_str` on `text`. http parses the bytes of
/// the text by the URI grammar; the outcome is a function of the text alone,
/// which is all that is claimed here.
#[verifier::external_body]
pub(crate) fn parse_uri(text: &str) -> (r: Result<http::Uri, http::uri::InvalidUri>)
    ensures
        r == parsed_uri(text@),
{
    text.parse::<http::Uri>()
}

/// Calls `<u16 as FromStr>::from_str` on `text`. Its documentation (that of
/// `u16::from_str_radix` with radix 10) says that the text must be an optional
/// `+` followed by only digits, that any other character, whitespace included,
/// is an error, and that a value too large for the type is an error; the value
/// is then the number the digits denote. `decimal_u16` states exactly that.
/// Which kind of error comes back is left unsaid.
#[verifier::external_body]
pub(crate) fn parse_u16(text: &str) -> (r: Result<u16, std::num::ParseIntError>)
    ensures
        r is Ok <==> decimal_u16(text@) is Some,
        r matches Ok(v) ==> decimal_u16(text@) == Some(v),
{
    text.parse::<u16>()
}

/// What `std::time::Duration::as_secs` gives for a duration: its number of
/// whole seconds.
pub uninterp spec fn whole_secs(d: core::time::Duration) -> u64;

/// Calls `std::time::Duration::as_secs`, which returns the number of whole
/// seconds of the duration; that number is named `whole_secs`.
#[verifier::external_body]
pub(crate) fn duration_as_secs(d: &core::time::Duration) -> (secs: u64)
    ensures
        secs == whole_secs(*d),
{
    d.as_secs()
}

/// What `std::time::Duration::from_secs` gives for a number of seconds.
pub uninterp spec fn duration_of_secs(secs: u64) -> core::time::Duration;

/// Calls `std::time::Duration::from_secs`, which makes the duration of `secs`
/// whole seconds. As its documentation says, `as_secs` gives `secs` back.
#[verifier::external_body]
pub(crate) fn duration_from_secs(secs: u64) -> (d: core::time::Duration)
    ensures
        d == duration_of_secs(secs),
        whole_secs(d) == secs,
{
    core::time::Duration::from_secs(secs)
}

/// The smallest Unix timestamp that `time::OffsetDateTime::from_unix_timestamp`
/// accepts: the first second of the year -9999, the first day of `time`'s
/// `Date::MIN` (without its `large-dates` feature, which this crate does not
/// turn on).
pub const TIME_MIN_UNIX_SECS: i64 = -377705116800i64;

/// The largest Unix timestamp that `time::OffsetDateTime::from_unix_timestamp`
/// accepts: the last second of the year 9999, the last day of `time`'s
/// `Date::MAX` (without its `large-dates` feature).
pub const TIME_MAX_UNIX_SECS: i64 = 253402300799i64;

/// Whether `time::OffsetDateTime::from_unix_timestamp` accepts `secs`.
pub open spec fn time_accepts_unix_secs(secs: i64) -> bool {
    TIME_MIN_UNIX_SECS <= secs <= TIME_MAX_UNIX_SECS
}

/// What `time::OffsetDateTime::from_unix_timestamp` gives for `secs`, with the
/// instant itself left out.
pub uninterp spec fn unix_timestamp_check(secs: i64) -> Result<(), time::error::ComponentRange>;

/// Calls `time::OffsetDateTime::from_unix_timestamp` on `secs` and keeps
/// whether it succeeded. Its source checks the timestamp against the Unix
/// timestamps of midnight of `Date::MIN` and of the last instant of
/// `Date::MAX`, in UTC, and returns a `ComponentRange` error outside them;
/// within them it always succeeds. The outcome depends on `secs` alone.
#[verifier::external_body]
pub(crate) fn check_unix_timestamp(secs: i64) -> (r: Result<(), time::error::ComponentRange>)
    ensures
        r == unix_timestamp_check(secs),
        r is Ok <==> time_accepts_unix_secs(secs),
{
    match time::OffsetDateTime::from_unix_timestamp(secs) {
        Ok(_) => Ok(()),
        Err(e) => Err(e),
    }
}

} // verus!
