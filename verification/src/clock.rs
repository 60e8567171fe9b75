//! Times of day on a 24-hour clock, to the second.

use vstd::prelude::*;

verus! {

/// Minutes in a day.
pub const MINUTES_PER_DAY: i64 = 1440;

/// Seconds in a day.
pub const SECONDS_PER_DAY: u32 = 86400;

/// Whether `hour`:`minute`:`second` is a reading of a 24-hour clock.
pub open spec fn valid_time(hour: int, minute: int, second: int) -> bool {
    &&& 0 <= hour < 24
    &&& 0 <= minute < 60
    &&& 0 <= second < 60
}

/// A time of day as a mathematical value.
pub struct TimeModel {
    pub hour: int,
    pub minute: int,
    pub second: int,
}

impl TimeModel {
    /// The reading exists on a 24-hour clock.
    pub open spec fn is_valid(self) -> bool {
        valid_time(self.hour, self.minute, self.second)
    }

    /// Seconds elapsed since midnight.
    pub open spec fn seconds_from_midnight(self) -> int {
        self.hour * 3600 + self.minute * 60 + self.second
    }

    /// The reading that lies `minutes` whole minutes after midnight.
    pub open spec fn at_minute(minutes: int) -> TimeModel {
        TimeModel { hour: minutes / 60, minute: minutes % 60, second: 0 }
    }
}

/// A time of day. Every value is a reading that exists: the hour lies in
/// `0..24`, minute and second in `0..60`.
#[derive(Clone, Copy, Debug, PartialEq, Eq, Structural)]
pub struct ClockTime {
    hour: u32,
    minute: u32,
    second: u32,
}

impl View for ClockTime {
    type V = TimeModel;

    closed spec fn view(&self) -> TimeModel {
        TimeModel { hour: self.hour as int, minute: self.minute as int, second: self.second as int }
    }
}

impl ClockTime {
    #[verifier::type_invariant]
    spec fn well_formed(self) -> bool {
        valid_time(self.hour as int, self.minute as int, self.second as int)
    }

    /// Two times of day with one view are one time of day.
    pub proof fn lemma_view_is_injective(self, other: ClockTime)
        requires
            self@ == other@,
        ensures
            self == other,
    {
    }

    /// Makes the reading `hour`:`minute`:`second`, or nothing where a clock
    /// never shows it. A leap second (`second == 60`) is no reading.
    pub fn new(hour: u32, minute: u32, second: u32) -> (time: Option<ClockTime>)
        ensures
            time is Some <==> valid_time(hour as int, minute as int, second as int),
            time matches Some(t) ==> t@ == (TimeModel {
                hour: hour as int,
                minute: minute as int,
                second: second as int,
            }),
    {
        if hour < 24 && minute < 60 && second < 60 {
            Some(ClockTime { hour, minute, second })
        } else {
            None
        }
    }

    /// The reading `minutes` whole minutes after midnight, second zero, or
    /// nothing where `minutes` lies outside the day. A count outside
    /// `0..1440` is not wrapped into a neighbouring day.
    pub fn from_minutes(minutes: i64) -> (time: Option<ClockTime>)
        ensures
            time is Some <==> 0 <= minutes < MINUTES_PER_DAY,
            time matches Some(t) ==> t@ == TimeModel::at_minute(minutes as int),
    {
        if 0 <= minutes && minutes < MINUTES_PER_DAY {
            let hour: u32 = (minutes / 60) as u32;
            let minute: u32 = (minutes % 60) as u32;
            Some(ClockTime { hour, minute, second: 0 })
        } else {
            None
        }
    }

    /// The hour, from 0 to 23.
    pub fn hour(&self) -> (hour: u32)
        ensures
            hour == self@.hour,
            self@.is_valid(),
    {
        proof {
            use_type_invariant(self);
        }
        self.hour
    }

    /// The minute, from 0 to 59.
    pub fn minute(&self) -> (minute: u32)
        ensures
            minute == self@.minute,
            minute < 60,
    {
        proof {
            use_type_invariant(self);
        }
        self.minute
    }

    /// The second, from 0 to 59.
    pub fn second(&self) -> (second: u32)
        ensures
            second == self@.second,
            second < 60,
    {
        proof {
            use_type_invariant(self);
        }
        self.second
    }

    /// Seconds elapsed since midnight.
    pub fn seconds_from_midnight(&self) -> (seconds: u32)
        ensures
            seconds == self@.seconds_from_midnight(),
            seconds < SECONDS_PER_DAY,
    {
        proof {
            use_type_invariant(self);
        }
        self.hour * 3600 + self.minute * 60 + self.second
    }
}

} // verus!
