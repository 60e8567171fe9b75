//! Reading the date and the time of day from text.
//!
//! The text is read by `chrono`. What it reads is then checked again,
//! so that no date or time enters the calculation that does not exist.

use vstd::prelude::*;
use chrono::{Datelike, NaiveDate, NaiveTime, Timelike};
use crate::calendar::{valid_date, CalendarDate, DateModel};
use crate::clock::{valid_time, ClockTime, TimeModel};
use crate::error::{agrees, SolarError};

verus! {

/// The pattern of a date text: year, month and day, separated by hyphens.
pub const DATE_PATTERN: &'static str = "%Y-%m-%d";

/// The pattern of a time text: hour, minute and second, separated by colons.
pub const TIME_PATTERN: &'static str = "%H:%M:%S";

/// Year, month and day that `chrono::NaiveDate::parse_from_str` reads from
/// `text` under `pattern`, or nothing where it reports an error.
pub uninterp spec fn date_fields(text: Seq<char>, pattern: Seq<char>) -> Option<(i32, u32, u32)>;

/// Hour, minute and second that `chrono::NaiveTime::parse_from_str` reads
/// from `text` under `pattern`, or nothing where it reports an error.
pub uninterp spec fn time_fields(text: Seq<char>, pattern: Seq<char>) -> Option<(u32, u32, u32)>;

/// Calls `chrono::NaiveDate::parse_from_str` and takes year, month and day
/// out of the date it returns. The call is made under [`DATE_PATTERN`] only:
/// under other patterns, such as one of an ISO week date, `chrono` may
/// overflow on an extreme year. Nothing is claimed of the outcome but that it
/// depends on the two texts alone.
#[verifier::external_body]
fn read_date(text: &str, pattern: &str) -> (fields: Option<(i32, u32, u32)>)
    requires
        pattern@ == DATE_PATTERN@,
    ensures
        fields == date_fields(text@, pattern@),
{
    match NaiveDate::parse_from_str(text, pattern) {
        Ok(date) => Some((date.year(), date.month(), date.day())),
        Err(_) => None,
    }
}

/// Calls `chrono::NaiveTime::parse_from_str` and takes hour, minute and
/// second out of the time it returns. The call is made under
/// [`TIME_PATTERN`] only. Nothing is claimed of the outcome but that it
/// depends on the two texts alone.
#[verifier::external_body]
fn read_time(text: &str, pattern: &str) -> (fields: Option<(u32, u32, u32)>)
    requires
        pattern@ == TIME_PATTERN@,
    ensures
        fields == time_fields(text@, pattern@),
{
    match NaiveTime::parse_from_str(text, pattern) {
        Ok(time) => Some((time.hour(), time.minute(), time.second())),
        Err(_) => None,
    }
}

/// The date that three fields read from text stand for.
pub open spec fn date_of_fields(fields: Option<(i32, u32, u32)>) -> Result<DateModel, SolarError> {
    match fields {
        Some((year, month, day)) => if valid_date(year as int, month as int, day as int) {
            Ok(DateModel { year: year as int, month: month as int, day: day as int })
        } else {
            Err(SolarError::ParseError)
        },
        None => Err(SolarError::ParseError),
    }
}

/// The time of day that three fields read from text stand for.
pub open spec fn time_of_fields(fields: Option<(u32, u32, u32)>) -> Result<TimeModel, SolarError> {
    match fields {
        Some((hour, minute, second)) => if valid_time(hour as int, minute as int, second as int) {
            Ok(TimeModel { hour: hour as int, minute: minute as int, second: second as int })
        } else {
            Err(SolarError::ParseError)
        },
        None => Err(SolarError::ParseError),
    }
}

/// A date is read exactly where fields were read that name a day of the
/// calendar, and it then holds those very fields; anything else is a
/// `ParseError`.
pub proof fn lemma_only_existing_dates_are_read(fields: Option<(i32, u32, u32)>)
    ensures
        date_of_fields(fields) is Ok <==> (fields matches Some((year, month, day)) && valid_date(
            year as int,
            month as int,
            day as int,
        )),
        date_of_fields(fields) matches Ok(date) ==> date.is_valid() && fields == Some(
            (date.year as i32, date.month as u32, date.day as u32),
        ),
        date_of_fields(fields) matches Err(error) ==> error == SolarError::ParseError,
{
}

/// Makes a date of the fields read from a text. Missing fields, and fields
/// that name no day of the calendar, are a `ParseError`: a month 13 or a
/// 30 February is never carried over into a neighbouring month.
pub fn date_from_fields(fields: Option<(i32, u32, u32)>) -> (date: Result<CalendarDate, SolarError>)
    ensures
        agrees(date, date_of_fields(fields)),
{
    match fields {
        Some((year, month, day)) => match CalendarDate::new(year, month, day) {
            Some(date) => Ok(date),
            None => Err(SolarError::ParseError),
        },
        None => Err(SolarError::ParseError),
    }
}

/// Makes a time of day of the fields read from a text. Missing fields, and
/// fields that no clock shows, are a `ParseError`.
pub fn time_from_fields(fields: Option<(u32, u32, u32)>) -> (time: Result<ClockTime, SolarError>)
    ensures
        agrees(time, time_of_fields(fields)),
{
    match fields {
        Some((hour, minute, second)) => match ClockTime::new(hour, minute, second) {
            Some(time) => Ok(time),
            None => Err(SolarError::ParseError),
        },
        None => Err(SolarError::ParseError),
    }
}

/// Reads a date written as `YYYY-MM-DD`.
pub fn parse_date(text: &str) -> (date: Result<CalendarDate, SolarError>)
    ensures
        agrees(date, date_of_fields(date_fields(text@, DATE_PATTERN@))),
{
    date_from_fields(read_date(text, DATE_PATTERN))
}

/// Reads a time of day written as `HH:MM:SS`.
pub fn parse_time(text: &str) -> (time: Result<ClockTime, SolarError>)
    ensures
        agrees(time, time_of_fields(time_fields(text@, TIME_PATTERN@))),
{
    time_from_fields(read_time(text, TIME_PATTERN))
}

} // verus!
