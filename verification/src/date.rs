//! Dates: what the `chrono` crate is trusted to do, and the two places
//! where the library asks it: reading the date of a boundary line, and
//! placing that date at a fixed offset from UTC.

use crate::error::{MigrateError, ParseFailure};
use chrono::{FixedOffset, NaiveDateTime};
use vstd::prelude::*;

verus! {

/// `chrono::NaiveDateTime`, a date and time of day without a time zone.
/// Verus sees nothing inside it; the library only carries it.
#[verifier::external_type_specification]
#[verifier::external_body]
pub struct ExNaiveDateTime(NaiveDateTime);

/// `chrono::FixedOffset`, a time zone at a fixed distance from UTC.
#[verifier::external_type_specification]
#[verifier::external_body]
pub struct ExFixedOffset(FixedOffset);

/// `chrono::format::ParseError`, what reading a date fails with.
#[verifier::external_type_specification]
#[verifier::external_body]
pub struct ExParseError(chrono::format::ParseError);

/// The date that `text` holds under the grammar `format`, `None` where it
/// holds none: the result of `NaiveDateTime::parse_from_str`.
pub uninterp spec fn parsed_date(text: Seq<char>, format: Seq<char>) -> Option<NaiveDateTime>;

/// The seconds that `offset` is east of UTC: what it was made with.
pub uninterp spec fn seconds_east(offset: FixedOffset) -> int;

/// The instant at which a clock `offset` away from UTC shows `local`, as
/// the date and time of day in UTC; `None` where `chrono` cannot represent
/// it: the result of `TimeZone::from_local_datetime` of a `FixedOffset`.
pub uninterp spec fn instant_at(offset: FixedOffset, local: NaiveDateTime) -> Option<
    NaiveDateTime,
>;

/// The text that `chrono` shows for `date`: the result of its `to_string`.
pub uninterp spec fn date_text(date: NaiveDateTime) -> Seq<char>;

/// Calls `NaiveDateTime::parse_from_str`. Trusted: the outcome depends on
/// the text and the grammar alone, and is named `parsed_date`.
#[verifier::external_body]
fn naive_parse_from_str(text: &str, format: &str) -> (outcome: Result<
    NaiveDateTime,
    chrono::format::ParseError,
>)
    ensures
        match outcome {
            Ok(date) => parsed_date(text@, format@) == Some(date),
            Err(_) => parsed_date(text@, format@) is None,
        },
{
    NaiveDateTime::parse_from_str(text, format)
}

/// Calls `FixedOffset::east_opt`. Trusted: an offset comes back exactly for
/// a distance of less than a day, and is that many seconds east.
#[verifier::external_body]
fn fixed_offset_east(seconds: i32) -> (offset: Option<FixedOffset>)
    ensures
        offset is Some <==> -86_400 < seconds < 86_400,
        offset matches Some(o) ==> seconds_east(o) == seconds,
{
    FixedOffset::east_opt(seconds)
}

/// Calls `TimeZone::from_local_datetime` on a `FixedOffset` and reads the
/// time in UTC off the result. Trusted: the instant depends on the offset
/// and the local time alone, and is named `instant_at`.
#[verifier::external_body]
fn fixed_offset_from_local(offset: &FixedOffset, local: &NaiveDateTime) -> (instant: Option<
    NaiveDateTime,
>)
    ensures
        instant == instant_at(*offset, *local),
{
    chrono::TimeZone::from_local_datetime(offset, local).single().map(|at| at.naive_utc())
}

/// Calls `to_string` of a `NaiveDateTime`. Trusted: the text depends on the
/// date alone, and is named `date_text`.
#[verifier::external_body]
pub(crate) fn naive_to_string(date: &NaiveDateTime) -> (text: String)
    ensures
        text@ == date_text(*date),
{
    date.to_string()
}

/// An instant, with the offset from UTC of the clock it was read from.
#[derive(Debug)]
pub struct Instant {
    /// The date and time of day in UTC.
    pub utc: NaiveDateTime,
    /// The clock's time zone.
    pub offset: FixedOffset,
}

/// Reads a date under the grammar `format`.
pub fn parse_date(text: &str, format: &str) -> (outcome: Result<NaiveDateTime, ParseFailure>)
    ensures
        match outcome {
            Ok(date) => parsed_date(text@, format@) == Some(date),
            Err(error) => parsed_date(text@, format@) is None && error == ParseFailure::DateFormat,
        },
{
    match naive_parse_from_str(text, format) {
        Ok(date) => Ok(date),
        Err(_) => Err(ParseFailure::DateFormat),
    }
}

/// The time zone `seconds` east of UTC. There is one exactly where the
/// distance is less than a day.
pub fn offset_east(seconds: i64) -> (outcome: Result<FixedOffset, MigrateError>)
    ensures
        outcome is Ok <==> -86_400 < seconds < 86_400,
        outcome matches Ok(offset) ==> seconds_east(offset) == seconds,
        outcome matches Err(error) ==> error is TimezoneConversion,
{
    if -86_400 < seconds && seconds < 86_400 {
        match fixed_offset_east(seconds as i32) {
            Some(offset) => Ok(offset),
            None => Err(MigrateError::TimezoneConversion),
        }
    } else {
        Err(MigrateError::TimezoneConversion)
    }
}

/// The instant at which a clock in the time zone `offset` shows `local`.
pub fn to_instant(offset: FixedOffset, local: &NaiveDateTime) -> (outcome: Result<
    Instant,
    MigrateError,
>)
    ensures
        match outcome {
            Ok(instant) => instant_at(offset, *local) == Some(instant.utc) && instant.offset
                == offset,
            Err(error) => instant_at(offset, *local) is None && error is TimezoneConversion,
        },
{
    match fixed_offset_from_local(&offset, local) {
        Some(utc) => Ok(Instant { utc, offset }),
        None => Err(MigrateError::TimezoneConversion),
    }
}

} // verus!
