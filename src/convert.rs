use vstd::prelude::*;
use chrono::DateTime;
use crate::instant::{epoch, Instant};
use crate::text::{
    all_digits, digits_to_i64, digits_value, is_date, is_date_only, is_number, lemma_digits_bounded,
    pow10,
};

verus! {

/// The offset of the zone in which date strings are written: UTC+8, in seconds.
pub const UTC_PLUS_8_SECS: i32 = 28800;

/// The layout that a date-time string takes once it carries an offset.
pub const PARSE_FMT: &'static str = "%Y-%m-%d %H:%M:%S %z";

/// What completes a date without a time of day: midnight.
pub const MIDNIGHT: &'static str = " 00:00:00";

/// The offset appended before parsing, as if the string were written in UTC.
pub const UTC_TAG: &'static str = " +0000";

/// Why a query gives no instant.
#[derive(Clone, Copy, Debug, PartialEq, Eq, Structural)]
pub enum ConvertError {
    /// A digit string whose value does not fit an `i64`.
    InvalidTimestamp,
    /// A date or date-time string that does not follow the layout.
    Unparsable,
    /// An instant outside the range that can be represented or displayed.
    OutOfRange,
}

/// What chrono's `DateTime::parse_from_str` gives for a string and a layout:
/// the seconds since the epoch and the sub-second nanoseconds of the parsed
/// instant, or `None` where parsing fails.
pub uninterp spec fn parsed_timestamp(s: Seq<char>, fmt: Seq<char>) -> Option<(i64, u32)>;

/// Relies on chrono's `DateTime::parse_from_str`, read through `timestamp` and
/// `timestamp_subsec_nanos`: the result depends on the two strings alone.
#[verifier::external_body]
fn parse_timestamp(s: &str, fmt: &str) -> (r: Option<(i64, u32)>)
    ensures
        r == parsed_timestamp(s@, fmt@),
{
    match DateTime::parse_from_str(s, fmt) {
        Ok(t) => Some((t.timestamp(), t.timestamp_subsec_nanos())),
        Err(_) => None,
    }
}

/// The string handed to the parser: a date alone gets midnight, and every
/// string gets the UTC tag.
pub open spec fn completed_text(s: Seq<char>) -> Seq<char> {
    (if is_date_only(s) {
        s + MIDNIGHT@
    } else {
        s
    }) + UTC_TAG@
}

/// The instant that a date or date-time string written in UTC+8 denotes.
pub open spec fn date_string_instant(s: Seq<char>) -> Result<Instant, ConvertError> {
    match parsed_timestamp(completed_text(s), PARSE_FMT@) {
        Some((secs, nanos)) => {
            let utc = secs - UTC_PLUS_8_SECS;
            if i64::MIN <= utc {
                Ok(Instant { secs: utc as i64, nanos })
            } else {
                Err(ConvertError::OutOfRange)
            }
        },
        None => Err(ConvertError::Unparsable),
    }
}

/// The instant that a string of decimal digits denotes as whole seconds.
pub open spec fn seconds_instant(s: Seq<char>) -> Result<Instant, ConvertError> {
    let v = digits_value(s);
    if s.len() > 0 && v <= i64::MAX {
        Ok(Instant { secs: v as i64, nanos: 0 })
    } else {
        Err(ConvertError::InvalidTimestamp)
    }
}

/// The instant that a 13-digit string denotes: its first ten digits are the
/// seconds, the digits at 11 and 12 the sub-second count (the digit at 10 is
/// skipped).
pub open spec fn millis_string_instant(s: Seq<char>) -> Instant {
    Instant {
        secs: digits_value(s.subrange(0, 10)) as i64,
        nanos: digits_value(s.subrange(11, 13)) as u32,
    }
}

/// The instant that a query denotes.
pub open spec fn query_instant(s: Seq<char>) -> Result<Instant, ConvertError> {
    if s.len() == 0 {
        Ok(epoch())
    } else if all_digits(s) {
        if s.len() == 13 {
            Ok(millis_string_instant(s))
        } else {
            seconds_instant(s)
        }
    } else {
        date_string_instant(s)
    }
}

} // verus!

verus! {

/// Reads a digit string as whole seconds since the epoch.
pub fn sec_ts_to_date_time(s: &String) -> (r: Result<Instant, ConvertError>)
    requires
        all_digits(s@),
    ensures
        r == seconds_instant(s@),
{
    let n = s.as_str().unicode_len();
    if n == 0 {
        return Err(ConvertError::InvalidTimestamp);
    }
    proof {
        assert(s@.subrange(0, n as int) =~= s@);
    }
    match digits_to_i64(s.as_str(), 0, n) {
        Some(secs) => Ok(Instant { secs, nanos: 0 }),
        None => Err(ConvertError::InvalidTimestamp),
    }
}

/// Reads a 13-digit string: the first ten digits are the seconds, and the
/// digits at positions 11 and 12 the sub-second count.
pub fn ms_ts_to_date_time(s: &String) -> (r: Instant)
    requires
        all_digits(s@),
        s@.len() == 13,
    ensures
        r == millis_string_instant(s@),
{
    let t = s.as_str();
    proof {
        lemma_digits_bounded(s@.subrange(0, 10));
        lemma_digits_bounded(s@.subrange(11, 13));
        reveal_with_fuel(pow10, 11);
    }
    let secs = digits_to_i64(t, 0, 10);
    let sub = digits_to_i64(t, 11, 13);
    match (secs, sub) {
        (Some(secs), Some(sub)) => Instant { secs, nanos: sub as u32 },
        _ => {
            proof {
                assert(false);
            }
            Instant::epoch()
        },
    }
}

/// Reads a date (`YYYY-MM-DD`) or date-time (`YYYY-MM-DD HH:MM:SS`) written
/// in UTC+8 and gives the instant it denotes.
pub fn str_to_date_time(s: &String) -> (r: Result<Instant, ConvertError>)
    ensures
        r == date_string_instant(s@),
{
    let mut date_str = s.clone();
    if is_date(s) {
        date_str.append(MIDNIGHT);
    }
    date_str.append(UTC_TAG);
    assert(date_str@ == completed_text(s@));
    match parse_timestamp(date_str.as_str(), PARSE_FMT) {
        Some((secs, nanos)) => match secs.checked_sub(UTC_PLUS_8_SECS as i64) {
            Some(utc) => Ok(Instant { secs: utc, nanos }),
            None => Err(ConvertError::OutOfRange),
        },
        None => Err(ConvertError::Unparsable),
    }
}

/// The instant that a query denotes: the epoch for the empty string; for a
/// digit string, a 13-digit millisecond string or else whole seconds; for any
/// other string, a date or date-time in UTC+8.
pub fn convert_to_date_time(s: &String) -> (r: Result<Instant, ConvertError>)
    ensures
        r == query_instant(s@),
        s@.len() == 0 ==> r == Ok::<Instant, ConvertError>(epoch()),
{
    if s.as_str().unicode_len() == 0 {
        return Ok(Instant::epoch());
    }
    if is_number(s) {
        let len = s.as_str().unicode_len();
        if len == 13 {
            Ok(ms_ts_to_date_time(s))
        } else {
            sec_ts_to_date_time(s)
        }
    } else {
        str_to_date_time(s)
    }
}

} // verus!
