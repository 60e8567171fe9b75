//! The exact side of the sunrise/sunset calculation.
//!
//! A calculation runs in three stages. [`observe`] reads the inputs and forms
//! the integers that fix the fractional year angle. The caller then
//! evaluates the trigonometric series on doubles and reports what came of it
//! as a [`SolarEvents`] value. [`sunrise_sunset`] turns that into two instants
//! on the observer's date, or says why there are none.

use vstd::prelude::*;
use crate::calendar::{days_in_year, CalendarDate, DateModel};
use crate::clock::{ClockTime, TimeModel, MINUTES_PER_DAY, SECONDS_PER_DAY};
use crate::error::{agrees, SolarError};
use crate::text::{
    date_fields, date_from_fields, date_of_fields, parse_date, parse_time, time_fields,
    time_from_fields, time_of_fields, DATE_PATTERN, TIME_PATTERN,
};

verus! {

/// The position of a moment within its year, as the integers from which the
/// fractional year angle is formed:
/// `2π / days_in_year × (ordinal0 + 1 + seconds / 86400)`.
#[derive(Clone, Copy, Debug, PartialEq, Eq, Structural)]
pub struct FractionalYear {
    /// Zero-based day of the year.
    pub ordinal0: u32,
    /// Seconds since midnight.
    pub seconds: u32,
    /// Length of the year in days: 366 or 365.
    pub days_in_year: u32,
}

impl FractionalYear {
    /// The angle as a fraction of a full turn: the numerator, in seconds.
    pub open spec fn turn_numerator(self) -> int {
        SECONDS_PER_DAY * (self.ordinal0 + 1) + self.seconds
    }

    /// The angle as a fraction of a full turn: the denominator, in seconds.
    pub open spec fn turn_denominator(self) -> int {
        SECONDS_PER_DAY * self.days_in_year
    }
}

/// The position within the year of `time` on `date`, in a year that counts
/// as a leap year where `leap` says so.
pub open spec fn year_position(date: DateModel, time: TimeModel, leap: bool) -> FractionalYear {
    FractionalYear {
        ordinal0: date.ordinal0() as u32,
        seconds: time.seconds_from_midnight() as u32,
        days_in_year: days_in_year(leap) as u32,
    }
}

/// Forms the integers of the fractional year angle. The leap-year flag is
/// the caller's; with the date's own flag the angle is positive and exceeds a
/// full turn by less than one day's share.
pub fn fractional_year(date: &CalendarDate, time: &ClockTime, is_leap_year: bool) -> (position:
    FractionalYear)
    ensures
        position == year_position(date@, time@, is_leap_year),
        position.ordinal0 == date@.ordinal0(),
        position.seconds == time@.seconds_from_midnight(),
        position.days_in_year == days_in_year(is_leap_year),
        0 < position.turn_numerator(),
        is_leap_year == date@.in_leap_year() ==> position.turn_numerator()
            < position.turn_denominator() + SECONDS_PER_DAY,
{
    let ordinal0: u32 = date.ordinal0();
    let seconds: u32 = time.seconds_from_midnight();
    let days_in_year: u32 = if is_leap_year {
        366
    } else {
        365
    };
    FractionalYear { ordinal0, seconds, days_in_year }
}

/// What a calculation starts from: the observer's date, the time of day, and
/// the position of that moment within the date's year.
#[derive(Clone, Copy, Debug, PartialEq, Eq, Structural)]
pub struct Observation {
    pub date: CalendarDate,
    pub time: ClockTime,
    pub year: FractionalYear,
}

/// An observation as a mathematical value.
pub struct ObservationModel {
    pub date: DateModel,
    pub time: TimeModel,
    pub year: FractionalYear,
}

impl View for Observation {
    type V = ObservationModel;

    open spec fn view(&self) -> ObservationModel {
        ObservationModel { date: self.date@, time: self.time@, year: self.year }
    }
}

/// The observation that the fields read from a date text and from a time
/// text stand for. The leap-year flag is the date's own.
pub open spec fn observation_of_fields(
    date: Option<(i32, u32, u32)>,
    time: Option<(u32, u32, u32)>,
) -> Result<ObservationModel, SolarError> {
    match (date_of_fields(date), time_of_fields(time)) {
        (Ok(d), Ok(t)) => Ok(
            ObservationModel { date: d, time: t, year: year_position(d, t, d.in_leap_year()) },
        ),
        _ => Err(SolarError::ParseError),
    }
}

/// The observation that a date text and a time text stand for.
pub open spec fn observation_of(date_text: Seq<char>, time_text: Seq<char>) -> Result<
    ObservationModel,
    SolarError,
> {
    observation_of_fields(
        date_fields(date_text, DATE_PATTERN@),
        time_fields(time_text, TIME_PATTERN@),
    )
}

/// Puts a date and a time of day together with their position in the year.
pub fn observation(date: CalendarDate, time: ClockTime) -> (seen: Observation)
    ensures
        seen@ == (ObservationModel {
            date: date@,
            time: time@,
            year: year_position(date@, time@, date@.in_leap_year()),
        }),
{
    let year = fractional_year(&date, &time, date.is_leap_year());
    Observation { date, time, year }
}

/// Makes an observation of the fields read from a date text and from a time
/// text. It is a `ParseError` where either is missing or names a date or a
/// time that does not exist.
pub fn observation_from_fields(
    date: Option<(i32, u32, u32)>,
    time: Option<(u32, u32, u32)>,
) -> (seen: Result<Observation, SolarError>)
    ensures
        agrees(seen, observation_of_fields(date, time)),
{
    match (date_from_fields(date), time_from_fields(time)) {
        (Ok(d), Ok(t)) => Ok(observation(d, t)),
        _ => Err(SolarError::ParseError),
    }
}

/// Reads a date written as `YYYY-MM-DD` and a time of day written as
/// `HH:MM:SS`, and places the moment within its year.
pub fn observe(date_text: &str, time_text: &str) -> (seen: Result<Observation, SolarError>)
    ensures
        agrees(seen, observation_of(date_text@, time_text@)),
{
    match (parse_date(date_text), parse_time(time_text)) {
        (Ok(d), Ok(t)) => Ok(observation(d, t)),
        _ => Err(SolarError::ParseError),
    }
}

/// What the trigonometric stage found for one day and one place.
#[derive(Clone, Copy, Debug, PartialEq, Eq, Structural)]
pub enum SolarEvents {
    /// The cosine of the hour angle fell outside `[-1, 1]`: the sun stays
    /// above or below the horizon all day.
    Never,
    /// Sunrise and sunset, each in whole minutes from midnight of the
    /// observer's date on the reference clock, rounded down.
    At { sunrise: i64, sunset: i64 },
}

/// A moment on the reference clock: a date and a time of day.
#[derive(Clone, Copy, Debug, PartialEq, Eq, Structural)]
pub struct Instant {
    pub date: CalendarDate,
    pub time: ClockTime,
}

/// An instant as a mathematical value.
pub struct InstantModel {
    pub date: DateModel,
    pub time: TimeModel,
}

impl View for Instant {
    type V = InstantModel;

    open spec fn view(&self) -> InstantModel {
        InstantModel { date: self.date@, time: self.time@ }
    }
}

impl InstantModel {
    /// The moment `minutes` whole minutes after the midnight that begins
    /// `date`.
    pub open spec fn on(date: DateModel, minutes: int) -> InstantModel {
        InstantModel { date, time: TimeModel::at_minute(minutes) }
    }

    /// Both instants lie on one date, and `self` comes first.
    pub open spec fn precedes_on_same_date(self, other: InstantModel) -> bool {
        &&& self.date == other.date
        &&& self.time.seconds_from_midnight() < other.time.seconds_from_midnight()
    }
}

/// Whether a count of minutes from midnight lies within the day.
pub open spec fn within_day(minutes: int) -> bool {
    0 <= minutes < MINUTES_PER_DAY
}

/// Sunrise and sunset on `date`, given what the trigonometric stage found.
/// Without a rise and a set there is no result. A minute count outside the
/// day is not carried into the day before or after: it leaves the whole
/// result invalid.
pub open spec fn resolution(date: DateModel, events: SolarEvents) -> Result<
    (InstantModel, InstantModel),
    SolarError,
> {
    match events {
        SolarEvents::Never => Err(SolarError::NoSunriseSunset),
        SolarEvents::At { sunrise, sunset } => if within_day(sunrise as int) && within_day(
            sunset as int,
        ) {
            Ok((InstantModel::on(date, sunrise as int), InstantModel::on(date, sunset as int)))
        } else {
            Err(SolarError::InvalidResult)
        },
    }
}

/// Turns the outcome of the trigonometric stage into the instants of sunrise
/// and sunset on `date`, second zero, or reports why there are none. Both
/// instants come together or not at all.
pub fn sunrise_sunset(date: CalendarDate, events: SolarEvents) -> (times: Result<
    (Instant, Instant),
    SolarError,
>)
    ensures
        agrees(times, resolution(date@, events)),
{
    match events {
        SolarEvents::Never => Err(SolarError::NoSunriseSunset),
        SolarEvents::At { sunrise, sunset } => {
            match (ClockTime::from_minutes(sunrise), ClockTime::from_minutes(sunset)) {
                (Some(rise), Some(set)) => Ok(
                    (Instant { date, time: rise }, Instant { date, time: set }),
                ),
                _ => Err(SolarError::InvalidResult),
            }
        },
    }
}

/// Where a calculation succeeds, sunrise and sunset are instants of the
/// observer's date, each a reading that exists, at the minute that was
/// handed in; and sunrise comes before sunset exactly where its minute count
/// is the smaller one.
pub proof fn lemma_sunrise_precedes_sunset(date: DateModel, sunrise: i64, sunset: i64)
    requires
        resolution(date, SolarEvents::At { sunrise, sunset }) is Ok,
    ensures
        ({
            let (rise, set) = resolution(date, SolarEvents::At { sunrise, sunset })->Ok_0;
            &&& rise.date == date
            &&& set.date == date
            &&& rise.time.is_valid()
            &&& set.time.is_valid()
            &&& rise.time.seconds_from_midnight() == 60 * sunrise
            &&& set.time.seconds_from_midnight() == 60 * sunset
            &&& rise.precedes_on_same_date(set) <==> sunrise < sunset
        }),
{
}

/// A calculation has a result exactly where the sun rises and sets and both
/// minute counts lie within the day; the two errors tell the other cases
/// apart.
pub proof fn lemma_resolution_cases(date: DateModel, events: SolarEvents)
    ensures
        resolution(date, events) is Ok <==> (events matches SolarEvents::At { sunrise, sunset }
            && within_day(sunrise as int) && within_day(sunset as int)),
        resolution(date, events) == Err::<(InstantModel, InstantModel), SolarError>(
            SolarError::NoSunriseSunset,
        ) <==> events is Never,
        resolution(date, events) == Err::<(InstantModel, InstantModel), SolarError>(
            SolarError::InvalidResult,
        ) <==> (events matches SolarEvents::At { sunrise, sunset } && !(within_day(sunrise as int)
            && within_day(sunset as int))),
        !(resolution(date, events) == Err::<(InstantModel, InstantModel), SolarError>(
            SolarError::ParseError,
        )),
{
}

/// Reading the same two texts twice gives the same observation, or the same
/// error.
pub proof fn lemma_observe_is_deterministic(
    date_text: Seq<char>,
    time_text: Seq<char>,
    first: Result<Observation, SolarError>,
    second: Result<Observation, SolarError>,
)
    requires
        agrees(first, observation_of(date_text, time_text)),
        agrees(second, observation_of(date_text, time_text)),
    ensures
        first == second,
{
    if let (Ok(a), Ok(b)) = (first, second) {
        a.date.lemma_view_is_injective(b.date);
        a.time.lemma_view_is_injective(b.time);
    }
}

/// Resolving the same date and the same events twice gives the same two
/// instants, or the same error.
pub proof fn lemma_sunrise_sunset_is_deterministic(
    date: CalendarDate,
    events: SolarEvents,
    first: Result<(Instant, Instant), SolarError>,
    second: Result<(Instant, Instant), SolarError>,
)
    requires
        agrees(first, resolution(date@, events)),
        agrees(second, resolution(date@, events)),
    ensures
        first == second,
{
    if let (Ok((rise1, set1)), Ok((rise2, set2))) = (first, second) {
        rise1.date.lemma_view_is_injective(rise2.date);
        rise1.time.lemma_view_is_injective(rise2.time);
        set1.date.lemma_view_is_injective(set2.date);
        set1.time.lemma_view_is_injective(set2.time);
    }
}

} // verus!
