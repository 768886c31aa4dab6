//! The calendar: which days exist.

use vstd::prelude::*;
use crate::reason::DateFault;

verus! {

/// A year is a leap year when 4 divides it and 100 does not, or when 400
/// divides it.
pub open spec fn leap_year(year: int) -> bool {
    (year % 4 == 0 && year % 100 != 0) || year % 400 == 0
}

/// The number of days of a month of a year; `month` is 1 to 12.
pub open spec fn days_in_month(year: int, month: int) -> int {
    if month == 2 {
        if leap_year(year) {
            29
        } else {
            28
        }
    } else if month == 4 || month == 6 || month == 9 || month == 11 {
        30
    } else {
        31
    }
}

/// Year, month and day name a day of the calendar.
pub open spec fn real_day(year: int, month: int, day: int) -> bool {
    &&& 1 <= month <= 12
    &&& 1 <= day <= days_in_month(year, month)
}

/// A day of the proleptic Gregorian calendar.
#[derive(Debug, Clone, Copy, PartialEq, Eq, Structural)]
pub struct Date {
    pub year: i32,
    pub month: u32,
    pub day: u32,
}

impl Date {
    /// The date names a day that exists.
    pub open spec fn wf(&self) -> bool {
        real_day(self.year as int, self.month as int, self.day as int)
    }
}

impl View for Date {
    type V = Date;

    open spec fn view(&self) -> Date {
        *self
    }
}

/// What [`check_day`] answers: the month is looked at first, then the day
/// against the length of that month in that year.
pub open spec fn checked_day(year: i32, month: u32, day: u32) -> Result<Date, DateFault> {
    if month < 1 || month > 12 {
        Err(DateFault::MonthOutOfRange { month })
    } else if day < 1 || day > days_in_month(year as int, month as int) {
        Err(DateFault::DayInvalid { day, month })
    } else {
        Ok(Date { year, month, day })
    }
}

/// Tells whether `year` is a leap year.
pub fn is_leap_year(year: i32) -> (b: bool)
    ensures
        b == leap_year(year as int),
{
    (year % 4 == 0 && year % 100 != 0) || year % 400 == 0
}

/// The number of days of a month of a year.
pub fn month_length(year: i32, month: u32) -> (n: u32)
    ensures
        n == days_in_month(year as int, month as int),
{
    if month == 2 {
        if is_leap_year(year) {
            29
        } else {
            28
        }
    } else if month == 4 || month == 6 || month == 9 || month == 11 {
        30
    } else {
        31
    }
}

/// Checks that year, month and day name a real day, and gives the date.
pub fn check_day(year: i32, month: u32, day: u32) -> (r: Result<Date, DateFault>)
    ensures
        r == checked_day(year, month, day),
        r is Ok <==> real_day(year as int, month as int, day as int),
        r matches Ok(date) ==> date.wf(),
{
    if month < 1 || month > 12 {
        return Err(DateFault::MonthOutOfRange { month });
    }
    if day < 1 || day > month_length(year, month) {
        return Err(DateFault::DayInvalid { day, month });
    }
    Ok(Date { year, month, day })
}

} // verus!
