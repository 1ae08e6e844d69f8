//! Calendar timestamps for the DS3231 codec.
//!
//! [`CalendarDateTime`] is the domain value the register codec converts to
//! and from: a wall-clock instant given as year, month, day-of-month, hour,
//! minute and second. A value can only be constructed when it names a real
//! calendar instant (so February 30th is rejected at the door), and the
//! day of the week is always derived from the date rather than stored.

use vstd::prelude::*;

verus! {

/// Whether `year` is a leap year in the Gregorian calendar.
pub open spec fn spec_is_leap_year(year: int) -> bool {
    (year % 4 == 0 && year % 100 != 0) || year % 400 == 0
}

/// The number of days in `month` of `year` (months counted 1-12).
pub open spec fn spec_days_in_month(year: int, month: int) -> int {
    if month == 2 {
        if spec_is_leap_year(year) {
            29
        } else {
            28
        }
    } else if month == 4 || month == 6 || month == 9 || month == 11 {
        30
    } else {
        31
    }
}

/// Whether year/month/day name a real Gregorian calendar date.
pub open spec fn spec_valid_date(year: int, month: int, day: int) -> bool {
    &&& 1 <= month <= 12
    &&& 1 <= day <= spec_days_in_month(year, month)
}

/// Whether hour/minute/second name a time of day.
pub open spec fn spec_valid_time(hour: int, minute: int, second: int) -> bool {
    &&& 0 <= hour <= 23
    &&& 0 <= minute <= 59
    &&& 0 <= second <= 59
}

/// The anchor value a month contributes to the day-of-week sum, for the
/// common-year alignment used by `spec_day_of_week`.
pub open spec fn spec_month_anchor(month: int) -> int {
    if month == 1 {
        0
    } else if month == 2 {
        3
    } else if month == 3 {
        2
    } else if month == 4 {
        5
    } else if month == 5 {
        0
    } else if month == 6 {
        3
    } else if month == 7 {
        5
    } else if month == 8 {
        1
    } else if month == 9 {
        4
    } else if month == 10 {
        6
    } else if month == 11 {
        2
    } else {
        4
    }
}

/// The day of the week of year/month/day, counted with Sunday as 0.
///
/// January and February are counted as part of the preceding year so that a
/// leap day never falls between a month and its anchor; the leading terms
/// count the leap days up to that year.
pub open spec fn spec_day_of_week(year: int, month: int, day: int) -> int {
    let y = if month < 3 {
        year - 1
    } else {
        year
    };
    (y + y / 4 - y / 100 + y / 400 + spec_month_anchor(month) + day) % 7
}

/// Whether `year` is a leap year.
#[verifier::when_used_as_spec(spec_is_leap_year_exec_shim)]
pub fn is_leap_year(year: i32) -> (r: bool)
    ensures
        r == spec_is_leap_year(year as int),
{
    (year % 4 == 0 && year % 100 != 0) || year % 400 == 0
}

/// Shim giving `is_leap_year` its spec meaning at exec call sites.
pub open spec fn spec_is_leap_year_exec_shim(year: i32) -> bool {
    spec_is_leap_year(year as int)
}

/// The number of days in `month` of `year`.
pub fn days_in_month(year: i32, month: u32) -> (r: u32)
    requires
        1 <= month <= 12,
    ensures
        r == spec_days_in_month(year as int, month as int),
{
    if month == 2 {
        if is_leap_year(year) {
            29
        } else {
            28
        }
    } else if month == 4 || month == 6 || month == 9 || month == 11 {
        30
    } else {
        31
    }
}

/// The day of the week of year/month/day, counted with Sunday as 0.
pub fn day_of_week(year: i32, month: u32, day: u32) -> (r: u8)
    requires
        1 <= year,
        1 <= month <= 12,
        1 <= day <= 31,
    ensures
        r == spec_day_of_week(year as int, month as int, day as int),
        r <= 6,
{
    let y: i64 = if month < 3 {
        (year - 1) as i64
    } else {
        year as i64
    };
    let anchor: i64 = if month == 1 {
        0
    } else if month == 2 {
        3
    } else if month == 3 {
        2
    } else if month == 4 {
        5
    } else if month == 5 {
        0
    } else if month == 6 {
        3
    } else if month == 7 {
        5
    } else if month == 8 {
        1
    } else if month == 9 {
        4
    } else if month == 10 {
        6
    } else if month == 11 {
        2
    } else {
        4
    };
    let sum: i64 = y + y / 4 - y / 100 + y / 400 + anchor + day as i64;
    (sum % 7) as u8
}

/// A wall-clock calendar instant in the range the DS3231 codec works with.
///
/// [`CalendarDateTime::new`] checks the fields and only hands out values
/// satisfying [`CalendarDateTime::wf`]; the encoding functions ask for that
/// well-formedness, so a value built by hand must name a real calendar
/// date and time of day before it can be encoded.
#[derive(Clone, Copy, Debug, PartialEq, Eq, Structural)]
pub struct CalendarDateTime {
    /// Year (any Gregorian year; the codec itself accepts 2000-2199).
    pub year: i32,
    /// Month of the year (1-12).
    pub month: u32,
    /// Day of the month (1-31, valid for the month and year).
    pub day: u32,
    /// Hour of the day (0-23).
    pub hour: u32,
    /// Minute (0-59).
    pub minute: u32,
    /// Second (0-59).
    pub second: u32,
}

impl CalendarDateTime {
    /// The year field.
    pub open spec fn spec_year(&self) -> i32 {
        self.year
    }

    /// The month field (1-12).
    pub open spec fn spec_month(&self) -> u32 {
        self.month
    }

    /// The day-of-month field (1-31).
    pub open spec fn spec_day(&self) -> u32 {
        self.day
    }

    /// The hour field (0-23).
    pub open spec fn spec_hour(&self) -> u32 {
        self.hour
    }

    /// The minute field (0-59).
    pub open spec fn spec_minute(&self) -> u32 {
        self.minute
    }

    /// The second field (0-59).
    pub open spec fn spec_second(&self) -> u32 {
        self.second
    }

    /// Whether the fields name a real calendar date and time of day.
    pub open spec fn wf(&self) -> bool {
        &&& spec_valid_date(self.year as int, self.month as int, self.day as int)
        &&& spec_valid_time(self.hour as int, self.minute as int, self.second as int)
    }

    /// The instant with the given fields, or `None` when they do not name a
    /// real calendar date and time of day.
    pub fn new(year: i32, month: u32, day: u32, hour: u32, minute: u32, second: u32) -> (r: Option<
        CalendarDateTime,
    >)
        ensures
            r == if spec_valid_date(year as int, month as int, day as int) && spec_valid_time(
                hour as int,
                minute as int,
                second as int,
            ) {
                Some(CalendarDateTime { year, month, day, hour, minute, second })
            } else {
                None::<CalendarDateTime>
            },
            r matches Some(dt) ==> dt.wf(),
    {
        if 1 <= month && month <= 12 && 1 <= day && day <= days_in_month(year, month) && hour <= 23
            && minute <= 59 && second <= 59 {
            Some(CalendarDateTime { year, month, day, hour, minute, second })
        } else {
            None
        }
    }

    /// The year.
    #[verifier::when_used_as_spec(spec_year)]
    pub fn year(&self) -> (r: i32)
        ensures
            r == self.spec_year(),
    {
        self.year
    }

    /// The month (1-12).
    #[verifier::when_used_as_spec(spec_month)]
    pub fn month(&self) -> (r: u32)
        ensures
            r == self.spec_month(),
    {
        self.month
    }

    /// The day of the month (1-31).
    #[verifier::when_used_as_spec(spec_day)]
    pub fn day(&self) -> (r: u32)
        ensures
            r == self.spec_day(),
    {
        self.day
    }

    /// The hour of the day (0-23).
    #[verifier::when_used_as_spec(spec_hour)]
    pub fn hour(&self) -> (r: u32)
        ensures
            r == self.spec_hour(),
    {
        self.hour
    }

    /// The minute (0-59).
    #[verifier::when_used_as_spec(spec_minute)]
    pub fn minute(&self) -> (r: u32)
        ensures
            r == self.spec_minute(),
    {
        self.minute
    }

    /// The second (0-59).
    #[verifier::when_used_as_spec(spec_second)]
    pub fn second(&self) -> (r: u32)
        ensures
            r == self.spec_second(),
    {
        self.second
    }

    /// The day of the week of this instant, counted with Sunday as 0.
    pub fn weekday_from_sunday(&self) -> (r: u8)
        requires
            self.wf(),
            1 <= self.spec_year(),
        ensures
            r == spec_day_of_week(self.spec_year() as int, self.spec_month() as int, self.spec_day() as int),
            r <= 6,
    {
        day_of_week(self.year, self.month, self.day)
    }
}

} // verus!
