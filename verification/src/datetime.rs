//! Time and date register codec for the DS3231 RTC.
//!
//! [`DS3231DateTime`] models the seven consecutive time/date registers of
//! the chip (seconds, minutes, hours, day, date, month+century, year) and
//! converts them to and from [`CalendarDateTime`] values. All fields are
//! BCD-encoded except the day-of-week ordinal; the hours register carries
//! the 12/24-hour mode, and the month register's top bit adds a century to
//! the two-digit year.

use vstd::prelude::*;

use crate::calendar::{
    spec_day_of_week, spec_valid_date, spec_valid_time, CalendarDateTime,
};
use crate::registers::{
    Date, Day, Hours, Minutes, Month, Seconds, TimeRepresentation, Year,
};

verus! {

/// Errors that can occur during DS3231 date/time conversion or validation.
#[derive(Clone, Copy, Debug, PartialEq, Eq, Structural)]
pub enum DS3231DateTimeError {
    /// The provided or decoded date/time is invalid (e.g., out of range, not representable)
    InvalidDateTime,
    /// The year is not before 2200 (DS3231 only supports years < 2200)
    YearNotBefore2200,
    /// The year is not after 1999 (DS3231 only supports years >= 2000)
    YearNotAfter1999,
}

/// The packed BCD byte for a two-digit value: ones digit in the low nibble,
/// tens digit in the nibble above it.
pub open spec fn spec_bcd_byte(v: int) -> u8 {
    (v / 10 * 16 + v % 10) as u8
}

/// The hours register byte for `hour` (0-23) in the given representation,
/// with the mode bit in bit 6.
///
/// In 24-hour form bit 4 marks hours 10-19 and bit 5 hours 20-23; in
/// 12-hour form bits 4:0 hold the BCD hour 1-12 and bit 5 the meridiem,
/// with hour 0 written as 12 AM and hours 13-23 as 1-11 PM.
pub open spec fn spec_hours_byte(hour: int, tr: TimeRepresentation) -> u8 {
    match tr {
        TimeRepresentation::TwentyFourHour => ((if 10 <= hour < 20 {
            16int
        } else {
            0int
        }) + (if hour >= 20 {
            32int
        } else {
            0int
        }) + hour % 10) as u8,
        TimeRepresentation::TwelveHour => {
            let h12 = if hour == 0 {
                12int
            } else if hour <= 12 {
                hour
            } else {
                hour - 12
            };
            let pm = hour >= 12;
            (64 + (if pm {
                32int
            } else {
                0int
            }) + h12 / 10 * 16 + h12 % 10) as u8
        },
    }
}

/// Internal representation of the DS3231 RTC date and time.
///
/// This struct models the 7 date/time registers of the DS3231, using the
/// typed register wrappers for each field. Encoding from a
/// [`CalendarDateTime`] always writes validated BCD; decoding checks that
/// the register contents name a real calendar instant.
#[derive(Clone, Copy, Debug, PartialEq, Eq, Structural)]
pub struct DS3231DateTime {
    /// Seconds register (address 0x00).
    pub seconds: Seconds,
    /// Minutes register (address 0x01).
    pub minutes: Minutes,
    /// Hours register (address 0x02).
    pub hours: Hours,
    /// Day-of-week register (address 0x03).
    pub day: Day,
    /// Date register (address 0x04).
    pub date: Date,
    /// Month/century register (address 0x05).
    pub month: Month,
    /// Year register (address 0x06).
    pub year: Year,
}

/// The register image that encoding `dt` in representation `tr` produces:
/// BCD seconds, minutes, date, month and two-digit year, the hours byte of
/// `spec_hours_byte`, the derived Sunday-based weekday ordinal, and the
/// century flag for years 2100 and later. Years outside 2000-2199 are the
/// only failures for a well-formed instant.
pub open spec fn spec_encode_datetime(dt: CalendarDateTime, tr: TimeRepresentation) -> Result<
    DS3231DateTime,
    DS3231DateTimeError,
> {
    if dt.year > 2199 {
        Err(DS3231DateTimeError::YearNotBefore2200)
    } else if dt.year < 2000 {
        Err(DS3231DateTimeError::YearNotAfter1999)
    } else {
        Ok(
            DS3231DateTime {
                seconds: Seconds(spec_bcd_byte(dt.second as int)),
                minutes: Minutes(spec_bcd_byte(dt.minute as int)),
                hours: Hours(spec_hours_byte(dt.hour as int, tr)),
                day: Day(
                    spec_day_of_week(dt.year as int, dt.month as int, dt.day as int) as u8,
                ),
                date: Date(spec_bcd_byte(dt.day as int)),
                month: Month(
                    ((if dt.year >= 2100 {
                        128int
                    } else {
                        0int
                    }) + spec_bcd_byte(dt.month as int)) as u8,
                ),
                year: Year(spec_bcd_byte((dt.year - 2000) % 100)),
            },
        )
    }
}

/// The calendar instant stored in the register image `raw`: each BCD field
/// is read back as tens-digit times ten plus ones-digit, the hour according
/// to the stored 12/24-hour mode, and the year as 2000 plus the two BCD
/// digits plus 100 when the century flag is set. The stored day-of-week
/// ordinal is not consulted. The result is an error unless the fields name
/// a real calendar date and time of day.
pub open spec fn spec_decode_datetime(raw: DS3231DateTime) -> Result<
    CalendarDateTime,
    DS3231DateTimeError,
> {
    let second = 10 * raw.seconds.spec_ten_seconds() + raw.seconds.spec_seconds();
    let minute = 10 * raw.minutes.spec_ten_minutes() + raw.minutes.spec_minutes();
    let hour12 = 10 * raw.hours.spec_ten_hours() + raw.hours.spec_hours();
    let hour = match raw.hours.spec_time_representation() {
        TimeRepresentation::TwentyFourHour => hour12 + 20 * raw.hours.spec_pm_or_twenty_hours(),
        TimeRepresentation::TwelveHour => {
            let pm = raw.hours.spec_pm_or_twenty_hours() != 0;
            if hour12 == 12 && !pm {
                0int
            } else if hour12 == 12 && pm {
                12int
            } else if !pm {
                hour12 as int
            } else {
                hour12 + 12
            }
        },
    };
    let year = 2000 + 10 * raw.year.spec_ten_year() + raw.year.spec_year() + (
    if raw.month.spec_century() {
        100int
    } else {
        0int
    });
    let month = 10 * raw.month.spec_ten_month() + raw.month.spec_month();
    let day = 10 * raw.date.spec_ten_date() + raw.date.spec_date();
    if spec_valid_date(year as int, month as int, day as int) && spec_valid_time(
        hour as int,
        minute as int,
        second as int,
    ) {
        Ok(
            CalendarDateTime {
                year: year as i32,
                month: month as u32,
                day: day as u32,
                hour: hour as u32,
                minute: minute as u32,
                second: second as u32,
            },
        )
    } else {
        Err(DS3231DateTimeError::InvalidDateTime)
    }
}

impl DS3231DateTime {
    /// Converts a number to its BCD digit pair `(ones, tens)`, rejecting
    /// values above `max_value`. A BCD pair holds two decimal digits, so
    /// the cap itself must be a two-digit value.
    pub fn make_bcd(value: u32, max_value: u32) -> (r: Result<(u8, u8), DS3231DateTimeError>)
        requires
            max_value <= 99,
        ensures
            r == if value <= max_value {
                Ok(((value % 10) as u8, (value / 10) as u8))
            } else {
                Err::<(u8, u8), _>(DS3231DateTimeError::InvalidDateTime)
            },
    {
        if value > max_value {
            return Err(DS3231DateTimeError::InvalidDateTime);
        }
        let ones = (value % 10) as u8;
        let tens = (value / 10) as u8;
        Ok((ones, tens))
    }

    /// Encodes a seconds value (0-59) into the seconds register.
    pub fn convert_seconds(seconds: u32) -> (r: Result<Seconds, DS3231DateTimeError>)
        ensures
            r == if seconds <= 59 {
                Ok(Seconds(spec_bcd_byte(seconds as int)))
            } else {
                Err::<Seconds, _>(DS3231DateTimeError::InvalidDateTime)
            },
    {
        let (ones, tens) = Self::make_bcd(seconds, 59)?;
        let mut value = Seconds::default();
        value.set_seconds(ones);
        value.set_ten_seconds(tens);
        Ok(value)
    }

    /// Encodes a minutes value (0-59) into the minutes register.
    pub fn convert_minutes(minutes: u32) -> (r: Result<Minutes, DS3231DateTimeError>)
        ensures
            r == if minutes <= 59 {
                Ok(Minutes(spec_bcd_byte(minutes as int)))
            } else {
                Err::<Minutes, _>(DS3231DateTimeError::InvalidDateTime)
            },
    {
        let (ones, tens) = Self::make_bcd(minutes, 59)?;
        let mut value = Minutes::default();
        value.set_minutes(ones);
        value.set_ten_minutes(tens);
        Ok(value)
    }

    /// Encodes an hour of the day (0-23) into the hours register in the
    /// given representation.
    pub fn convert_hours(hour: u32, time_representation: TimeRepresentation) -> (r: Result<
        Hours,
        DS3231DateTimeError,
    >)
        ensures
            r == if hour <= 23 {
                Ok(Hours(spec_hours_byte(hour as int, time_representation)))
            } else {
                Err::<Hours, _>(DS3231DateTimeError::InvalidDateTime)
            },
    {
        if hour > 23 {
            return Err(DS3231DateTimeError::InvalidDateTime);
        }
        let mut value = Hours::default();
        value.set_time_representation(time_representation);

        match time_representation {
            TimeRepresentation::TwentyFourHour => {
                let ones = (hour % 10) as u8;
                let ten_hours: u8 = if 10 <= hour && hour < 20 {
                    1
                } else {
                    0
                };
                let twenty_hours: u8 = if hour >= 20 {
                    1
                } else {
                    0
                };
                value.set_hours(ones);
                value.set_ten_hours(ten_hours);
                value.set_pm_or_twenty_hours(twenty_hours);
            },
            TimeRepresentation::TwelveHour => {
                let (hour12, is_pm): (u32, bool) = if hour == 0 {
                    (12, false)
                } else if hour <= 11 {
                    (hour, false)
                } else if hour == 12 {
                    (12, true)
                } else {
                    (hour - 12, true)
                };
                let ones = (hour12 % 10) as u8;
                let tens = (hour12 / 10) as u8;
                value.set_hours(ones);
                value.set_ten_hours(tens);
                value.set_pm_or_twenty_hours(
                    if is_pm {
                        1
                    } else {
                        0
                    },
                );
            },
        }
        Ok(value)
    }

    /// Encodes a Sunday-based weekday ordinal (0-6) into the day register.
    pub fn convert_day(weekday: u32) -> (r: Result<Day, DS3231DateTimeError>)
        ensures
            r == if weekday <= 6 {
                Ok(Day(weekday as u8))
            } else {
                Err::<Day, _>(DS3231DateTimeError::InvalidDateTime)
            },
    {
        if weekday > 6 {
            return Err(DS3231DateTimeError::InvalidDateTime);
        }
        let mut value = Day::default();
        value.set_day(weekday as u8);
        Ok(value)
    }

    /// Encodes a date of the month (1-31) into the date register.
    pub fn convert_date(date: u32) -> (r: Result<Date, DS3231DateTimeError>)
        ensures
            r == if date <= 31 {
                Ok(Date(spec_bcd_byte(date as int)))
            } else {
                Err::<Date, _>(DS3231DateTimeError::InvalidDateTime)
            },
    {
        let (ones, tens) = Self::make_bcd(date, 31)?;
        let mut value = Date::default();
        value.set_date(ones);
        value.set_ten_date(tens);
        Ok(value)
    }

    /// Encodes a month (1-12) into the month register, with the century
    /// flag left clear.
    pub fn convert_month(month: u32) -> (r: Result<Month, DS3231DateTimeError>)
        ensures
            r == if month <= 12 {
                Ok(Month(spec_bcd_byte(month as int)))
            } else {
                Err::<Month, _>(DS3231DateTimeError::InvalidDateTime)
            },
    {
        let (ones, tens) = Self::make_bcd(month, 12)?;
        let mut value = Month::default();
        value.set_month(ones);
        value.set_ten_month(tens);
        Ok(value)
    }

    /// Encodes a year (2000-2199) into the two-digit year register, also
    /// reporting whether the century flag must be set (years 2100-2199).
    pub fn convert_year(year: i32) -> (r: Result<(Year, bool), DS3231DateTimeError>)
        ensures
            r == if year > 2199 {
                Err::<(Year, bool), _>(DS3231DateTimeError::YearNotBefore2200)
            } else if year < 2000 {
                Err::<(Year, bool), _>(DS3231DateTimeError::YearNotAfter1999)
            } else {
                Ok((Year(spec_bcd_byte((year - 2000) % 100)), year >= 2100))
            },
    {
        if year > 2199 {
            return Err(DS3231DateTimeError::YearNotBefore2200);
        }
        if year < 2000 {
            return Err(DS3231DateTimeError::YearNotAfter1999);
        }

        let mut year_offset = (year - 2000) as u8;
        let century = if year_offset > 99 {
            year_offset = year_offset - 100;
            true
        } else {
            false
        };

        let ones = year_offset % 10;
        let tens = year_offset / 10;

        let mut value = Year::default();
        value.set_year(ones);
        value.set_ten_year(tens);
        Ok((value, century))
    }

    /// Encodes a calendar instant into the seven time/date registers, in
    /// the given hour representation, deriving the weekday from the date.
    pub fn from_datetime(datetime: &CalendarDateTime, time_representation: TimeRepresentation) -> (
    r: Result<Self, DS3231DateTimeError>)
        requires
            datetime.wf(),
        ensures
            r == spec_encode_datetime(*datetime, time_representation),
    {
        let (year, century) = Self::convert_year(datetime.year())?;
        let seconds = Self::convert_seconds(datetime.second())?;
        let minutes = Self::convert_minutes(datetime.minute())?;
        let hours = Self::convert_hours(datetime.hour(), time_representation)?;
        let day = Self::convert_day(datetime.weekday_from_sunday() as u32)?;
        let date = Self::convert_date(datetime.day())?;
        let mut month = Self::convert_month(datetime.month())?;

        if century {
            month.set_century(true);
        }

        let raw = DS3231DateTime { seconds, minutes, hours, day, date, month, year };

        Ok(raw)
    }

    /// Decodes the seven time/date registers back into a calendar instant,
    /// rejecting register contents that do not name one. The stored
    /// day-of-week ordinal is not consulted.
    pub fn into_datetime(self) -> (r: Result<CalendarDateTime, DS3231DateTimeError>)
        ensures
            r == spec_decode_datetime(self),
    {
        let seconds: u32 = 10 * self.seconds.ten_seconds() as u32 + self.seconds.seconds() as u32;
        let minutes: u32 = 10 * self.minutes.ten_minutes() as u32 + self.minutes.minutes() as u32;
        let hours12: u32 = 10 * self.hours.ten_hours() as u32 + self.hours.hours() as u32;
        let hours: u32 = match self.hours.time_representation() {
            TimeRepresentation::TwentyFourHour => {
                hours12 + 20 * self.hours.pm_or_twenty_hours() as u32
            },
            TimeRepresentation::TwelveHour => {
                let is_pm = self.hours.pm_or_twenty_hours() != 0;
                if hours12 == 12 && !is_pm {
                    0
                } else if hours12 == 12 && is_pm {
                    12
                } else if !is_pm {
                    hours12
                } else {
                    hours12 + 12
                }
            },
        };

        let year_offset: u32 = 10 * self.year.ten_year() as u32 + self.year.year() as u32;
        let century_offset: u32 = if self.month.century() {
            100
        } else {
            0
        };
        let year: i32 = 2000 + (year_offset + century_offset) as i32;
        let month: u32 = 10 * self.month.ten_month() as u32 + self.month.month() as u32;
        let date: u32 = 10 * self.date.ten_date() as u32 + self.date.date() as u32;

        match CalendarDateTime::new(year, month, date, hours, minutes, seconds) {
            Some(dt) => Ok(dt),
            None => Err(DS3231DateTimeError::InvalidDateTime),
        }
    }
}

/// The BCD digit pair of a two-digit value reassembles to that value.
pub proof fn lemma_bcd_byte_digits(v: int)
    requires
        0 <= v <= 99,
    ensures
        spec_bcd_byte(v) as int == v / 10 * 16 + v % 10,
        (spec_bcd_byte(v) as int) % 16 == v % 10,
        (spec_bcd_byte(v) as int) / 16 == v / 10,
        10 * ((spec_bcd_byte(v) as int) / 16) + (spec_bcd_byte(v) as int) % 16 == v,
{
    assert(v / 10 <= 9 && v % 10 <= 9) by (nonlinear_arith)
        requires
            0 <= v <= 99,
    ;
    assert((v / 10 * 16 + v % 10) / 16 == v / 10 && (v / 10 * 16 + v % 10) % 16 == v % 10)
        by (nonlinear_arith)
        requires
            0 <= v / 10 <= 9 && 0 <= v % 10 <= 9,
    ;
    assert(10 * (v / 10) + v % 10 == v) by (nonlinear_arith)
        requires
            0 <= v,
    ;
}

/// Round trip: decoding the register image of any well-formed calendar
/// instant in the supported year range, in either hour representation,
/// yields that instant again.
#[verifier::rlimit(100)]
pub proof fn lemma_datetime_round_trip(dt: CalendarDateTime, tr: TimeRepresentation)
    requires
        dt.wf(),
        2000 <= dt.spec_year() <= 2199,
    ensures
        spec_encode_datetime(dt, tr) matches Ok(raw) && spec_decode_datetime(raw) == Ok::<
            CalendarDateTime,
            DS3231DateTimeError,
        >(dt),
{
    let raw = spec_encode_datetime(dt, tr)->Ok_0;
    let s = dt.second as int;
    let mi = dt.minute as int;
    let h = dt.hour as int;
    let d = dt.day as int;
    let mo = dt.month as int;
    let y = dt.year as int;
    lemma_bcd_byte_digits(s);
    assert(10 * raw.seconds.spec_ten_seconds() + raw.seconds.spec_seconds() == s);
    lemma_bcd_byte_digits(mi);
    assert(10 * raw.minutes.spec_ten_minutes() + raw.minutes.spec_minutes() == mi);
    lemma_bcd_byte_digits(d);
    assert(10 * raw.date.spec_ten_date() + raw.date.spec_date() == d);
    lemma_bcd_byte_digits(mo);
    let mb = raw.month.0 as int;
    assert(mb == (if y >= 2100 {
        128int
    } else {
        0int
    }) + mo / 10 * 16 + mo % 10);
    assert(raw.month.spec_century() == (y >= 2100) && 10 * raw.month.spec_ten_month()
        + raw.month.spec_month() == mo) by {
        let c = if y >= 2100 {
            1int
        } else {
            0int
        };
        assert(mb / 128 == c && mb / 16 == 8 * c + mo / 10 && mb % 16 == mo % 10)
            by (nonlinear_arith)
            requires
                mb == c * 128 + mo / 10 * 16 + mo % 10 && 0 <= c <= 1 && 0 <= mo / 10 <= 1 && 0
                    <= mo % 10 <= 9,
        ;
    }
    let yo = (y - 2000) % 100;
    lemma_bcd_byte_digits(yo);
    assert(10 * raw.year.spec_ten_year() + raw.year.spec_year() == yo) by {
        let yb = raw.year.0 as int;
        assert(yb / 16 == yo / 10 && yb % 16 == yo % 10);
    }
    assert(yo == y - 2000 - (if y >= 2100 {
        100int
    } else {
        0int
    }));
    let hb = raw.hours.0 as int;
    match tr {
        TimeRepresentation::TwentyFourHour => {
            assert(hb == (if 10 <= h < 20 {
                16int
            } else {
                0int
            }) + (if h >= 20 {
                32int
            } else {
                0int
            }) + h % 10);
            assert(hb < 64);
            assert(raw.hours.spec_time_representation() == TimeRepresentation::TwentyFourHour);
            assert(10 * raw.hours.spec_ten_hours() + raw.hours.spec_hours() + 20
                * raw.hours.spec_pm_or_twenty_hours() == h) by {
                assert(10 * (h / 10) + h % 10 == h) by (nonlinear_arith)
                    requires
                        0 <= h,
                ;
            }
        },
        TimeRepresentation::TwelveHour => {
            let h12 = if h == 0 {
                12int
            } else if h <= 12 {
                h
            } else {
                h - 12
            };
            let pm = h >= 12;
            let p = if pm {
                32int
            } else {
                0int
            };
            assert(hb == 64 + p + h12 / 10 * 16 + h12 % 10);
            assert(1 <= h12 <= 12);
            assert((hb / 64) % 2 == 1 && (hb / 32) % 2 == p / 32 && (hb / 16) % 2 == h12 / 10
                && hb % 16 == h12 % 10) by (nonlinear_arith)
                requires
                    hb == 64 + p + h12 / 10 * 16 + h12 % 10 && (p == 0 || p == 32) && 1 <= h12
                        <= 12 && 0 <= h12 / 10 <= 1 && 0 <= h12 % 10 <= 9,
            ;
            assert(raw.hours.spec_time_representation() == TimeRepresentation::TwelveHour);
            assert(10 * raw.hours.spec_ten_hours() + raw.hours.spec_hours() == h12) by {
                assert(10 * (h12 / 10) + h12 % 10 == h12) by (nonlinear_arith)
                    requires
                        0 <= h12,
                ;
            }
        },
    }
    assert(spec_decode_datetime(raw) == Ok::<CalendarDateTime, DS3231DateTimeError>(dt));
}

impl From<[u8; 7]> for DS3231DateTime {
    /// Wraps seven raw register bytes, in register-map order starting at
    /// the seconds register.
    fn from(data: [u8; 7]) -> (r: Self) {
        DS3231DateTime {
            seconds: Seconds(data[0]),
            minutes: Minutes(data[1]),
            hours: Hours(data[2]),
            day: Day(data[3]),
            date: Date(data[4]),
            month: Month(data[5]),
            year: Year(data[6]),
        }
    }
}

impl vstd::std_specs::convert::FromSpecImpl<[u8; 7]> for DS3231DateTime {
    open spec fn obeys_from_spec() -> bool {
        true
    }

    open spec fn from_spec(data: [u8; 7]) -> Self {
        DS3231DateTime {
            seconds: Seconds(data[0]),
            minutes: Minutes(data[1]),
            hours: Hours(data[2]),
            day: Day(data[3]),
            date: Date(data[4]),
            month: Month(data[5]),
            year: Year(data[6]),
        }
    }
}

impl From<&DS3231DateTime> for [u8; 7] {
    /// Unpacks the seven raw register bytes, in register-map order
    /// starting at the seconds register.
    fn from(dt: &DS3231DateTime) -> (r: [u8; 7]) {
        [dt.seconds.0, dt.minutes.0, dt.hours.0, dt.day.0, dt.date.0, dt.month.0, dt.year.0]
    }
}

impl vstd::std_specs::convert::FromSpecImpl<&DS3231DateTime> for [u8; 7] {
    open spec fn obeys_from_spec() -> bool {
        true
    }

    open spec fn from_spec(dt: &DS3231DateTime) -> Self {
        [dt.seconds.0, dt.minutes.0, dt.hours.0, dt.day.0, dt.date.0, dt.month.0, dt.year.0]
    }
}

} // verus!
