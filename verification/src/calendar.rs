//! Dates of the proleptic Gregorian calendar.

use vstd::prelude::*;

verus! {

/// Whether `year` is a leap year of the proleptic Gregorian calendar.
pub open spec fn is_leap(year: int) -> bool {
    year % 4 == 0 && (year % 100 != 0 || year % 400 == 0)
}

/// Number of days of a year, by its leap-year flag.
pub open spec fn days_in_year(leap: bool) -> int {
    if leap {
        366
    } else {
        365
    }
}

/// Number of days of month `month` (1 = January). Every number outside
/// `1..=12` is given 31 days; no valid date has such a month.
pub open spec fn days_in_month(leap: bool, month: int) -> int {
    if month == 2 {
        if leap {
            29
        } else {
            28
        }
    } else if month == 4 || month == 6 || month == 9 || month == 11 {
        30
    } else {
        31
    }
}

/// Number of days of the year that lie before the first day of `month`.
pub open spec fn days_before_month(leap: bool, month: int) -> int
    decreases month,
{
    if month <= 1 {
        0
    } else {
        days_before_month(leap, month - 1) + days_in_month(leap, month - 1)
    }
}

/// Whether `year`-`month`-`day` names a day that exists.
pub open spec fn valid_date(year: int, month: int, day: int) -> bool {
    &&& 1 <= month <= 12
    &&& 1 <= day <= days_in_month(is_leap(year), month)
}

/// A calendar date as a mathematical value.
pub struct DateModel {
    pub year: int,
    pub month: int,
    pub day: int,
}

impl DateModel {
    /// The date exists in the calendar.
    pub open spec fn is_valid(self) -> bool {
        valid_date(self.year, self.month, self.day)
    }

    /// The date's year is a leap year.
    pub open spec fn in_leap_year(self) -> bool {
        is_leap(self.year)
    }

    /// Zero-based day of the year: 0 on 1 January.
    pub open spec fn ordinal0(self) -> int {
        days_before_month(self.in_leap_year(), self.month) + self.day - 1
    }
}

/// The months before `month` hold as many days as the closed form says.
pub proof fn lemma_days_before_month(leap: bool, month: int)
    requires
        1 <= month <= 13,
    ensures
        days_before_month(leap, month) == if month <= 2 {
            31 * (month - 1)
        } else {
            (153 * (month - 3) + 2) / 5 + 59 + if leap {
                1int
            } else {
                0int
            }
        },
{
    reveal_with_fuel(days_before_month, 14);
}

/// A valid date's day of the year lies within its year.
pub proof fn lemma_ordinal0_in_year(date: DateModel)
    requires
        date.is_valid(),
    ensures
        0 <= date.ordinal0() < days_in_year(date.in_leap_year()),
{
    lemma_days_before_month(date.in_leap_year(), date.month);
}

/// Decides whether `year` is a leap year.
pub fn is_leap_year(year: i32) -> (leap: bool)
    ensures
        leap == is_leap(year as int),
{
    year % 4 == 0 && (year % 100 != 0 || year % 400 == 0)
}

/// Number of days of `month` in a year with the given leap-year flag.
pub fn month_length(leap: bool, month: u32) -> (days: u32)
    ensures
        days == days_in_month(leap, month as int),
{
    if month == 2 {
        if leap {
            29
        } else {
            28
        }
    } else if month == 4 || month == 6 || month == 9 || month == 11 {
        30
    } else {
        31
    }
}

/// A day of the proleptic Gregorian calendar. Every value is a day that
/// exists: the month lies in `1..=12` and the day within that month.
#[derive(Clone, Copy, Debug, PartialEq, Eq, Structural)]
pub struct CalendarDate {
    year: i32,
    month: u32,
    day: u32,
}

impl View for CalendarDate {
    type V = DateModel;

    closed spec fn view(&self) -> DateModel {
        DateModel { year: self.year as int, month: self.month as int, day: self.day as int }
    }
}

impl CalendarDate {
    #[verifier::type_invariant]
    spec fn well_formed(self) -> bool {
        valid_date(self.year as int, self.month as int, self.day as int)
    }

    /// Two dates with one view are one date.
    pub proof fn lemma_view_is_injective(self, other: CalendarDate)
        requires
            self@ == other@,
        ensures
            self == other,
    {
    }

    /// Makes the date `year`-`month`-`day`, or nothing where no such day
    /// exists.
    pub fn new(year: i32, month: u32, day: u32) -> (date: Option<CalendarDate>)
        ensures
            date is Some <==> valid_date(year as int, month as int, day as int),
            date matches Some(d) ==> d@ == (DateModel {
                year: year as int,
                month: month as int,
                day: day as int,
            }),
    {
        if 1 <= month && month <= 12 && 1 <= day && day <= month_length(is_leap_year(year), month) {
            Some(CalendarDate { year, month, day })
        } else {
            None
        }
    }

    /// The year.
    pub fn year(&self) -> (year: i32)
        ensures
            year == self@.year,
            self@.is_valid(),
    {
        proof {
            use_type_invariant(self);
        }
        self.year
    }

    /// The month, from 1 to 12.
    pub fn month(&self) -> (month: u32)
        ensures
            month == self@.month,
            1 <= month <= 12,
    {
        proof {
            use_type_invariant(self);
        }
        self.month
    }

    /// The day of the month, from 1.
    pub fn day(&self) -> (day: u32)
        ensures
            day == self@.day,
            1 <= day <= days_in_month(self@.in_leap_year(), self@.month),
    {
        proof {
            use_type_invariant(self);
        }
        self.day
    }

    /// Whether the date lies in a leap year.
    pub fn is_leap_year(&self) -> (leap: bool)
        ensures
            leap == self@.in_leap_year(),
    {
        is_leap_year(self.year)
    }

    /// Zero-based day of the year: 0 on 1 January, 364 or 365 on
    /// 31 December.
    pub fn ordinal0(&self) -> (ordinal: u32)
        ensures
            ordinal == self@.ordinal0(),
            ordinal < days_in_year(self@.in_leap_year()),
    {
        proof {
            use_type_invariant(self);
            lemma_ordinal0_in_year(self@);
        }
        let leap: bool = is_leap_year(self.year);
        let mut before: u32 = 0;
        let mut month: u32 = 1;
        while month < self.month
            invariant
                1 <= month <= self.month <= 12,
                before == days_before_month(leap, month as int),
                before <= 31 * (month - 1),
            decreases self.month - month,
        {
            before = before + month_length(leap, month);
            month = month + 1;
        }
        before + self.day - 1
    }
}

} // verus!
