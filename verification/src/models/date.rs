//! Days of the proleptic Gregorian calendar.

use vstd::prelude::*;

verus! {

/// Whether `year` is a leap year.
pub open spec fn is_leap_year(year: int) -> bool {
    year % 4 == 0 && (year % 100 != 0 || year % 400 == 0)
}

/// The number of days of `month` in `year`; zero where `month` is no month.
pub open spec fn days_in_month(year: int, month: int) -> int {
    if month == 2 {
        if is_leap_year(year) {
            29
        } else {
            28
        }
    } else if month == 4 || month == 6 || month == 9 || month == 11 {
        30
    } else if 1 <= month <= 12 {
        31
    } else {
        0
    }
}

/// Whether year, month and day name a day of the calendar.
pub open spec fn is_calendar_day(year: int, month: int, day: int) -> bool {
    1 <= month <= 12 && 1 <= day <= days_in_month(year, month)
}

/// A calendar day. The fields are public so that a caller can read them; the
/// functions that need a real day say so with [`Date::is_valid`].
#[derive(Debug, Clone, Copy, PartialEq, Eq, Structural)]
pub struct Date {
    pub year: i32,
    pub month: u32,
    pub day: u32,
}

/// Whether `year` is a leap year.
pub fn leap_year(year: i32) -> (b: bool)
    ensures
        b == is_leap_year(year as int),
{
    year % 4 == 0 && (year % 100 != 0 || year % 400 == 0)
}

/// The number of days of `month` in `year`; zero where `month` is no month.
pub fn month_length(year: i32, month: u32) -> (n: u32)
    ensures
        n == days_in_month(year as int, month as int),
{
    if month == 2 {
        if leap_year(year) {
            29
        } else {
            28
        }
    } else if month == 4 || month == 6 || month == 9 || month == 11 {
        30
    } else if 1 <= month && month <= 12 {
        31
    } else {
        0
    }
}

impl Date {
    /// Whether the fields name a day of the calendar.
    pub open spec fn is_valid(&self) -> bool {
        is_calendar_day(self.year as int, self.month as int, self.day as int)
    }

    /// The day with the given fields, if there is such a day.
    pub fn new(year: i32, month: u32, day: u32) -> (r: Option<Date>)
        ensures
            r is Some <==> is_calendar_day(year as int, month as int, day as int),
            r matches Some(d) ==> d == (Date { year, month, day }),
    {
        if 1 <= month && month <= 12 && 1 <= day && day <= month_length(year, month) {
            Some(Date { year, month, day })
        } else {
            None
        }
    }

    /// Whether the fields name a day of the calendar.
    pub fn valid(&self) -> (b: bool)
        ensures
            b == self.is_valid(),
    {
        1 <= self.month && self.month <= 12 && 1 <= self.day && self.day <= month_length(
            self.year,
            self.month,
        )
    }

    /// The day after `self`.
    pub open spec fn next(&self) -> Date {
        if self.day < days_in_month(self.year as int, self.month as int) {
            Date { year: self.year, month: self.month, day: (self.day + 1) as u32 }
        } else if self.month < 12 {
            Date { year: self.year, month: (self.month + 1) as u32, day: 1 }
        } else {
            Date { year: (self.year + 1) as i32, month: 1, day: 1 }
        }
    }

    /// Whether `self` has a day after it that the fields can hold: it has,
    /// unless it is the last day of the last year.
    pub open spec fn has_next(&self) -> bool {
        self.day < days_in_month(self.year as int, self.month as int) || self.month < 12
            || self.year < i32::MAX
    }

    /// The day after `self`; `None` for the last day that the year field can
    /// hold.
    pub fn succ(&self) -> (r: Option<Date>)
        ensures
            r == if self.has_next() {
                Some(self.next())
            } else {
                None
            },
            self.is_valid() ==> (r is None <==> self.year == i32::MAX && self.month == 12
                && self.day == 31),
            self.is_valid() && r is Some ==> r->Some_0.is_valid(),
    {
        if self.day < month_length(self.year, self.month) {
            Some(Date { year: self.year, month: self.month, day: self.day + 1 })
        } else if self.month < 12 {
            Some(Date { year: self.year, month: self.month + 1, day: 1 })
        } else if self.year < i32::MAX {
            Some(Date { year: self.year + 1, month: 1, day: 1 })
        } else {
            None
        }
    }
}

} // verus!
