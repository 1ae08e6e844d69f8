//! Alarm configuration codec for the DS3231 RTC.
//!
//! The chip's two alarms are configured through small register sets whose
//! top bits form a mask pattern: a masked field is a "don't care" for
//! matching, and only a closed set of mask combinations is legal. This
//! module provides the typed trigger-condition enums ([`Alarm1Config`],
//! [`Alarm2Config`]), the register images backing them ([`DS3231Alarm1`],
//! [`DS3231Alarm2`]), and the validated conversions between the two.
//!
//! Alarm 1 matches with seconds precision; Alarm 2 has no seconds register
//! and matches only at the top of a minute.

use vstd::prelude::*;

use crate::datetime::{spec_bcd_byte, spec_hours_byte, DS3231DateTime, DS3231DateTimeError};
use crate::registers::{
    AlarmDayDate, AlarmHours, AlarmMinutes, AlarmSeconds, DayDateSelect, TimeRepresentation,
};

verus! {

/// Error type for alarm configuration operations.
#[derive(Debug)]
pub enum AlarmError {
    /// Invalid time component value
    InvalidTime(&'static str),
    /// Invalid day of week (must be 1-7)
    InvalidDayOfWeek,
    /// Invalid date of month (must be 1-31)
    InvalidDateOfMonth,
    /// `DateTime` conversion error
    DateTime(DS3231DateTimeError),
}

impl From<DS3231DateTimeError> for AlarmError {
    /// Wraps a date/time conversion error.
    fn from(e: DS3231DateTimeError) -> (r: Self) {
        AlarmError::DateTime(e)
    }
}

impl vstd::std_specs::convert::FromSpecImpl<DS3231DateTimeError> for AlarmError {
    open spec fn obeys_from_spec() -> bool {
        true
    }

    open spec fn from_spec(e: DS3231DateTimeError) -> Self {
        AlarmError::DateTime(e)
    }
}

/// Alarm 1 specific configurations.
///
/// Alarm 1 supports seconds-level precision and can match against various
/// time components. The variants run from least to most specific.
#[derive(Debug, Clone, PartialEq, Eq, Structural)]
pub enum Alarm1Config {
    /// Trigger every second (all mask bits set)
    EverySecond,
    /// Trigger when seconds match (A1M1=0, others=1)
    AtSeconds {
        /// Seconds value (0-59)
        seconds: u8,
    },
    /// Trigger when minutes and seconds match (A1M1=0, A1M2=0, others=1)
    AtMinutesSeconds {
        /// Minutes value (0-59)
        minutes: u8,
        /// Seconds value (0-59)
        seconds: u8,
    },
    /// Trigger when hours, minutes, and seconds match (A1M1=0, A1M2=0, A1M3=0, A1M4=1).
    /// This creates a daily alarm at the specified time.
    AtTime {
        /// Hours value (0-23 for 24-hour, 1-12 for 12-hour)
        hours: u8,
        /// Minutes value (0-59)
        minutes: u8,
        /// Seconds value (0-59)
        seconds: u8,
        /// PM flag for 12-hour mode (None for 24-hour, Some(true/false) for 12-hour)
        is_pm: Option<bool>,
    },
    /// Trigger at specific time on specific date of month (all mask bits=0, DY/DT=0)
    AtTimeOnDate {
        /// Hours value (0-23 for 24-hour, 1-12 for 12-hour)
        hours: u8,
        /// Minutes value (0-59)
        minutes: u8,
        /// Seconds value (0-59)
        seconds: u8,
        /// Date of month (1-31)
        date: u8,
        /// PM flag for 12-hour mode (None for 24-hour, Some(true/false) for 12-hour)
        is_pm: Option<bool>,
    },
    /// Trigger at specific time on specific day of week (all mask bits=0, DY/DT=1)
    AtTimeOnDay {
        /// Hours value (0-23 for 24-hour, 1-12 for 12-hour)
        hours: u8,
        /// Minutes value (0-59)
        minutes: u8,
        /// Seconds value (0-59)
        seconds: u8,
        /// Day of week (1-7, where 1=Sunday)
        day: u8,
        /// PM flag for 12-hour mode (None for 24-hour, Some(true/false) for 12-hour)
        is_pm: Option<bool>,
    },
}

/// Alarm 2 specific configurations.
///
/// Alarm 2 has no seconds register and always triggers at 00 seconds of the
/// matching minute.
#[derive(Debug, Clone, PartialEq, Eq, Structural)]
pub enum Alarm2Config {
    /// Trigger every minute at 00 seconds (all mask bits set)
    EveryMinute,
    /// Trigger when minutes match at 00 seconds (A2M2=0, others=1)
    AtMinutes {
        /// Minutes value (0-59)
        minutes: u8,
    },
    /// Trigger when hours and minutes match at 00 seconds (A2M2=0, A2M3=0, A2M4=1).
    /// This creates a daily alarm at the specified time.
    AtTime {
        /// Hours value (0-23 for 24-hour, 1-12 for 12-hour)
        hours: u8,
        /// Minutes value (0-59)
        minutes: u8,
        /// PM flag for 12-hour mode (None for 24-hour, Some(true/false) for 12-hour)
        is_pm: Option<bool>,
    },
    /// Trigger at specific time on specific date of month at 00 seconds (all mask bits=0, DY/DT=0)
    AtTimeOnDate {
        /// Hours value (0-23 for 24-hour, 1-12 for 12-hour)
        hours: u8,
        /// Minutes value (0-59)
        minutes: u8,
        /// Date of month (1-31)
        date: u8,
        /// PM flag for 12-hour mode (None for 24-hour, Some(true/false) for 12-hour)
        is_pm: Option<bool>,
    },
    /// Trigger at specific time on specific day of week at 00 seconds (all mask bits=0, DY/DT=1)
    AtTimeOnDay {
        /// Hours value (0-23 for 24-hour, 1-12 for 12-hour)
        hours: u8,
        /// Minutes value (0-59)
        minutes: u8,
        /// Day of week (1-7, where 1=Sunday)
        day: u8,
        /// PM flag for 12-hour mode (None for 24-hour, Some(true/false) for 12-hour)
        is_pm: Option<bool>,
    },
}

/// The hour component of an alarm time is well-formed: 0-23 in 24-hour
/// mode, 1-12 in 12-hour mode.
pub open spec fn spec_alarm_hours_wf(hours: u8, is_pm: Option<bool>) -> bool {
    match is_pm {
        None => hours <= 23,
        Some(_) => 1 <= hours <= 12,
    }
}

/// The validation outcome for an hours/minutes/seconds alarm time, checked
/// in that order: minutes, then seconds, then the mode-dependent hour range.
pub open spec fn spec_validate_time_hms(
    hours: u8,
    minutes: u8,
    seconds: u8,
    is_pm: Option<bool>,
) -> Result<(), AlarmError> {
    if minutes > 59 {
        Err(AlarmError::InvalidTime("minutes must be 0-59"))
    } else if seconds > 59 {
        Err(AlarmError::InvalidTime("seconds must be 0-59"))
    } else {
        match is_pm {
            None => if hours > 23 {
                Err(AlarmError::InvalidTime("hours must be 0-23 in 24-hour mode"))
            } else {
                Ok(())
            },
            Some(_) => if hours == 0 || hours > 12 {
                Err(AlarmError::InvalidTime("hours must be 1-12 in 12-hour mode"))
            } else {
                Ok(())
            },
        }
    }
}

/// The validation outcome for an hours/minutes alarm time (no seconds),
/// checked minutes first, then the mode-dependent hour range.
pub open spec fn spec_validate_time_hm(hours: u8, minutes: u8, is_pm: Option<bool>) -> Result<
    (),
    AlarmError,
> {
    if minutes > 59 {
        Err(AlarmError::InvalidTime("minutes must be 0-59"))
    } else {
        match is_pm {
            None => if hours > 23 {
                Err(AlarmError::InvalidTime("hours must be 0-23 in 24-hour mode"))
            } else {
                Ok(())
            },
            Some(_) => if hours == 0 || hours > 12 {
                Err(AlarmError::InvalidTime("hours must be 1-12 in 12-hour mode"))
            } else {
                Ok(())
            },
        }
    }
}

impl Alarm1Config {
    /// All fields of the variant are in range for the hardware.
    pub open spec fn wf(&self) -> bool {
        match *self {
            Alarm1Config::EverySecond => true,
            Alarm1Config::AtSeconds { seconds } => seconds <= 59,
            Alarm1Config::AtMinutesSeconds { minutes, seconds } => minutes <= 59 && seconds <= 59,
            Alarm1Config::AtTime { hours, minutes, seconds, is_pm } => minutes <= 59 && seconds
                <= 59 && spec_alarm_hours_wf(hours, is_pm),
            Alarm1Config::AtTimeOnDate { hours, minutes, seconds, date, is_pm } => minutes <= 59
                && seconds <= 59 && spec_alarm_hours_wf(hours, is_pm) && 1 <= date <= 31,
            Alarm1Config::AtTimeOnDay { hours, minutes, seconds, day, is_pm } => minutes <= 59
                && seconds <= 59 && spec_alarm_hours_wf(hours, is_pm) && 1 <= day <= 7,
        }
    }

    /// The validation outcome of this configuration, with each out-of-range
    /// field reported by the error the hardware constraint calls for.
    pub open spec fn spec_validate(&self) -> Result<(), AlarmError> {
        match *self {
            Alarm1Config::EverySecond => Ok(()),
            Alarm1Config::AtSeconds { seconds } => if seconds > 59 {
                Err(AlarmError::InvalidTime("seconds must be 0-59"))
            } else {
                Ok(())
            },
            Alarm1Config::AtMinutesSeconds { minutes, seconds } => if minutes > 59 {
                Err(AlarmError::InvalidTime("minutes must be 0-59"))
            } else if seconds > 59 {
                Err(AlarmError::InvalidTime("seconds must be 0-59"))
            } else {
                Ok(())
            },
            Alarm1Config::AtTime { hours, minutes, seconds, is_pm } => spec_validate_time_hms(
                hours,
                minutes,
                seconds,
                is_pm,
            ),
            Alarm1Config::AtTimeOnDate { hours, minutes, seconds, date, is_pm } => {
                match spec_validate_time_hms(hours, minutes, seconds, is_pm) {
                    Err(e) => Err(e),
                    Ok(_) => if date == 0 || date > 31 {
                        Err(AlarmError::InvalidDateOfMonth)
                    } else {
                        Ok(())
                    },
                }
            },
            Alarm1Config::AtTimeOnDay { hours, minutes, seconds, day, is_pm } => {
                match spec_validate_time_hms(hours, minutes, seconds, is_pm) {
                    Err(e) => Err(e),
                    Ok(_) => if day == 0 || day > 7 {
                        Err(AlarmError::InvalidDayOfWeek)
                    } else {
                        Ok(())
                    },
                }
            },
        }
    }

    /// Validates the alarm configuration and returns any errors.
    ///
    /// # Errors
    ///
    /// Returns an error if any time component is out of valid range.
    pub fn validate(&self) -> (r: Result<(), AlarmError>)
        ensures
            r == self.spec_validate(),
            r is Ok <==> self.wf(),
    {
        match self {
            Alarm1Config::EverySecond => Ok(()),
            Alarm1Config::AtSeconds { seconds } => {
                if *seconds > 59 {
                    Err(AlarmError::InvalidTime("seconds must be 0-59"))
                } else {
                    Ok(())
                }
            },
            Alarm1Config::AtMinutesSeconds { minutes, seconds } => {
                if *minutes > 59 {
                    Err(AlarmError::InvalidTime("minutes must be 0-59"))
                } else if *seconds > 59 {
                    Err(AlarmError::InvalidTime("seconds must be 0-59"))
                } else {
                    Ok(())
                }
            },
            Alarm1Config::AtTime { hours, minutes, seconds, is_pm } => Self::validate_time(
                *hours,
                *minutes,
                *seconds,
                *is_pm,
            ),
            Alarm1Config::AtTimeOnDate { hours, minutes, seconds, date, is_pm } => {
                match Self::validate_time(*hours, *minutes, *seconds, *is_pm) {
                    Err(e) => Err(e),
                    Ok(_) => {
                        if *date == 0 || *date > 31 {
                            Err(AlarmError::InvalidDateOfMonth)
                        } else {
                            Ok(())
                        }
                    },
                }
            },
            Alarm1Config::AtTimeOnDay { hours, minutes, seconds, day, is_pm } => {
                match Self::validate_time(*hours, *minutes, *seconds, *is_pm) {
                    Err(e) => Err(e),
                    Ok(_) => {
                        if *day == 0 || *day > 7 {
                            Err(AlarmError::InvalidDayOfWeek)
                        } else {
                            Ok(())
                        }
                    },
                }
            },
        }
    }

    /// Checks an hours/minutes/seconds alarm time against the mode's ranges.
    fn validate_time(hours: u8, minutes: u8, seconds: u8, is_pm: Option<bool>) -> (r: Result<
        (),
        AlarmError,
    >)
        ensures
            r == spec_validate_time_hms(hours, minutes, seconds, is_pm),
    {
        if minutes > 59 {
            return Err(AlarmError::InvalidTime("minutes must be 0-59"));
        }
        if seconds > 59 {
            return Err(AlarmError::InvalidTime("seconds must be 0-59"));
        }

        match is_pm {
            None => {
                if hours > 23 {
                    Err(AlarmError::InvalidTime("hours must be 0-23 in 24-hour mode"))
                } else {
                    Ok(())
                }
            },
            Some(_) => {
                if hours == 0 || hours > 12 {
                    Err(AlarmError::InvalidTime("hours must be 1-12 in 12-hour mode"))
                } else {
                    Ok(())
                }
            },
        }
    }
}

impl Alarm2Config {
    /// All fields of the variant are in range for the hardware.
    pub open spec fn wf(&self) -> bool {
        match *self {
            Alarm2Config::EveryMinute => true,
            Alarm2Config::AtMinutes { minutes } => minutes <= 59,
            Alarm2Config::AtTime { hours, minutes, is_pm } => minutes <= 59
                && spec_alarm_hours_wf(hours, is_pm),
            Alarm2Config::AtTimeOnDate { hours, minutes, date, is_pm } => minutes <= 59
                && spec_alarm_hours_wf(hours, is_pm) && 1 <= date <= 31,
            Alarm2Config::AtTimeOnDay { hours, minutes, day, is_pm } => minutes <= 59
                && spec_alarm_hours_wf(hours, is_pm) && 1 <= day <= 7,
        }
    }

    /// The validation outcome of this configuration, with each out-of-range
    /// field reported by the error the hardware constraint calls for.
    pub open spec fn spec_validate(&self) -> Result<(), AlarmError> {
        match *self {
            Alarm2Config::EveryMinute => Ok(()),
            Alarm2Config::AtMinutes { minutes } => if minutes > 59 {
                Err(AlarmError::InvalidTime("minutes must be 0-59"))
            } else {
                Ok(())
            },
            Alarm2Config::AtTime { hours, minutes, is_pm } => spec_validate_time_hm(
                hours,
                minutes,
                is_pm,
            ),
            Alarm2Config::AtTimeOnDate { hours, minutes, date, is_pm } => {
                match spec_validate_time_hm(hours, minutes, is_pm) {
                    Err(e) => Err(e),
                    Ok(_) => if date == 0 || date > 31 {
                        Err(AlarmError::InvalidDateOfMonth)
                    } else {
                        Ok(())
                    },
                }
            },
            Alarm2Config::AtTimeOnDay { hours, minutes, day, is_pm } => {
                match spec_validate_time_hm(hours, minutes, is_pm) {
                    Err(e) => Err(e),
                    Ok(_) => if day == 0 || day > 7 {
                        Err(AlarmError::InvalidDayOfWeek)
                    } else {
                        Ok(())
                    },
                }
            },
        }
    }

    /// Validates the alarm configuration and returns any errors.
    ///
    /// # Errors
    ///
    /// Returns an error if any time component is out of valid range.
    pub fn validate(&self) -> (r: Result<(), AlarmError>)
        ensures
            r == self.spec_validate(),
            r is Ok <==> self.wf(),
    {
        match self {
            Alarm2Config::EveryMinute => Ok(()),
            Alarm2Config::AtMinutes { minutes } => {
                if *minutes > 59 {
                    Err(AlarmError::InvalidTime("minutes must be 0-59"))
                } else {
                    Ok(())
                }
            },
            Alarm2Config::AtTime { hours, minutes, is_pm } => Self::validate_time(
                *hours,
                *minutes,
                *is_pm,
            ),
            Alarm2Config::AtTimeOnDate { hours, minutes, date, is_pm } => {
                match Self::validate_time(*hours, *minutes, *is_pm) {
                    Err(e) => Err(e),
                    Ok(_) => {
                        if *date == 0 || *date > 31 {
                            Err(AlarmError::InvalidDateOfMonth)
                        } else {
                            Ok(())
                        }
                    },
                }
            },
            Alarm2Config::AtTimeOnDay { hours, minutes, day, is_pm } => {
                match Self::validate_time(*hours, *minutes, *is_pm) {
                    Err(e) => Err(e),
                    Ok(_) => {
                        if *day == 0 || *day > 7 {
                            Err(AlarmError::InvalidDayOfWeek)
                        } else {
                            Ok(())
                        }
                    },
                }
            },
        }
    }

    /// Checks an hours/minutes alarm time against the mode's ranges.
    fn validate_time(hours: u8, minutes: u8, is_pm: Option<bool>) -> (r: Result<(), AlarmError>)
        ensures
            r == spec_validate_time_hm(hours, minutes, is_pm),
    {
        if minutes > 59 {
            return Err(AlarmError::InvalidTime("minutes must be 0-59"));
        }

        match is_pm {
            None => {
                if hours > 23 {
                    Err(AlarmError::InvalidTime("hours must be 0-23 in 24-hour mode"))
                } else {
                    Ok(())
                }
            },
            Some(_) => {
                if hours == 0 || hours > 12 {
                    Err(AlarmError::InvalidTime("hours must be 1-12 in 12-hour mode"))
                } else {
                    Ok(())
                }
            },
        }
    }
}

/// The alarm hours register byte (mask bit clear) for an alarm time: the
/// 24-hour byte of `spec_hours_byte`, or in 12-hour mode the BCD hour 1-12
/// with the explicit meridiem flag in bit 5 and the mode flag in bit 6.
/// An hour 0 or above 12 given with a meridiem is first folded onto the
/// 1-12 dial the way the 24-hour clock reads it.
pub open spec fn spec_alarm_hours_byte(hour: int, is_pm: Option<bool>) -> u8 {
    match is_pm {
        None => spec_hours_byte(hour, TimeRepresentation::TwentyFourHour),
        Some(pm) => {
            let h12 = if hour == 0 {
                12int
            } else if hour <= 12 {
                hour
            } else {
                hour - 12
            };
            (64 + (if pm {
                32int
            } else {
                0int
            }) + h12 / 10 * 16 + h12 % 10) as u8
        },
    }
}

/// The minutes and hours registers (mask bits clear) built for an alarm
/// time, or the error when the minute or the hour is out of the 0-59 /
/// 0-23 register range.
pub open spec fn spec_create_alarm_time_components(hour: u8, minute: u8, is_pm: Option<bool>) -> Result<
    (AlarmMinutes, AlarmHours),
    AlarmError,
> {
    if minute > 59 {
        Err(AlarmError::DateTime(DS3231DateTimeError::InvalidDateTime))
    } else if hour > 23 {
        Err(AlarmError::DateTime(DS3231DateTimeError::InvalidDateTime))
    } else {
        Ok(
            (
                AlarmMinutes(spec_bcd_byte(minute as int)),
                AlarmHours(spec_alarm_hours_byte(hour as int, is_pm)),
            ),
        )
    }
}

/// The alarm day/date register built for a day of the week (bit 6 set, the
/// ordinal in the low nibble) or a BCD date of the month (bit 6 clear), or
/// the error when the date exceeds 31.
pub open spec fn spec_create_alarm_day_date(day_or_date: u8, is_day: bool) -> Result<
    AlarmDayDate,
    AlarmError,
> {
    if is_day {
        Ok(AlarmDayDate((64 + day_or_date % 16) as u8))
    } else if day_or_date > 31 {
        Err(AlarmError::DateTime(DS3231DateTimeError::InvalidDateTime))
    } else {
        Ok(AlarmDayDate(spec_bcd_byte(day_or_date as int)))
    }
}

/// The seconds value stored in an alarm seconds register, or the error
/// when its BCD digits are out of range.
pub open spec fn spec_decode_alarm_seconds(r: AlarmSeconds) -> Result<u8, AlarmError> {
    let ones = r.spec_seconds();
    let tens = r.spec_ten_seconds();
    if ones > 9 || tens > 5 {
        Err(AlarmError::InvalidTime("Invalid BCD seconds value"))
    } else {
        Ok((tens * 10 + ones) as u8)
    }
}

/// The minutes value stored in an alarm minutes register, or the error
/// when its BCD digits are out of range.
pub open spec fn spec_decode_alarm_minutes(r: AlarmMinutes) -> Result<u8, AlarmError> {
    let ones = r.spec_minutes();
    let tens = r.spec_ten_minutes();
    if ones > 9 || tens > 5 {
        Err(AlarmError::InvalidTime("Invalid BCD minutes value"))
    } else {
        Ok((tens * 10 + ones) as u8)
    }
}

/// The hour and meridiem stored in an alarm hours register: a 0-23 hour
/// with no meridiem in 24-hour mode, a 1-12 hour with the meridiem flag in
/// 12-hour mode, or the error when the digits or the assembled hour are
/// out of range for the stored mode.
pub open spec fn spec_decode_alarm_hours(r: AlarmHours) -> Result<(u8, Option<bool>), AlarmError> {
    let ones = r.spec_hours();
    let tens = r.spec_ten_hours();
    if ones > 9 || tens > 2 {
        Err(AlarmError::InvalidTime("Invalid BCD hours value"))
    } else {
        match r.spec_time_representation() {
            TimeRepresentation::TwentyFourHour => {
                let hours = r.spec_pm_or_twenty_hours() * 20 + tens * 10 + ones;
                if hours > 23 {
                    Err(AlarmError::InvalidTime("Invalid 24-hour value"))
                } else {
                    Ok(((hours) as u8, None))
                }
            },
            TimeRepresentation::TwelveHour => {
                let hours = tens * 10 + ones;
                if hours == 0 || hours > 12 {
                    Err(AlarmError::InvalidTime("Invalid 12-hour value"))
                } else {
                    Ok(((hours) as u8, Some(r.spec_pm_or_twenty_hours() != 0)))
                }
            },
        }
    }
}

/// The date of the month stored in an alarm day/date register (ignoring
/// the select bit), or the error when the BCD digits or the assembled date
/// are out of range.
pub open spec fn spec_decode_alarm_day_date(r: AlarmDayDate) -> Result<u8, AlarmError> {
    let ones = r.spec_day_or_date();
    let tens = r.spec_ten_date();
    if ones > 9 || tens > 3 {
        Err(AlarmError::InvalidTime("Invalid BCD date value"))
    } else {
        let date = tens * 10 + ones;
        if date == 0 || date > 31 {
            Err(AlarmError::InvalidTime("Invalid date value"))
        } else {
            Ok((date) as u8)
        }
    }
}

/// Internal representation of DS3231 Alarm 1 registers.
///
/// This struct models the 4 alarm 1 registers of the DS3231, using the
/// typed register wrappers for each field.
#[derive(Debug, Clone, Copy, PartialEq, Eq, Structural)]
pub struct DS3231Alarm1 {
    /// Alarm 1 seconds register (address 0x07).
    pub seconds: AlarmSeconds,
    /// Alarm 1 minutes register (address 0x08).
    pub minutes: AlarmMinutes,
    /// Alarm 1 hours register (address 0x09).
    pub hours: AlarmHours,
    /// Alarm 1 day/date register (address 0x0A).
    pub day_date: AlarmDayDate,
}

/// Internal representation of DS3231 Alarm 2 registers.
///
/// This struct models the 3 alarm 2 registers of the DS3231 (no seconds
/// register).
#[derive(Debug, Clone, Copy, PartialEq, Eq, Structural)]
pub struct DS3231Alarm2 {
    /// Alarm 2 minutes register (address 0x0B).
    pub minutes: AlarmMinutes,
    /// Alarm 2 hours register (address 0x0C).
    pub hours: AlarmHours,
    /// Alarm 2 day/date register (address 0x0D).
    pub day_date: AlarmDayDate,
}

/// The Alarm 1 register image for a well-formed configuration: every field
/// that does not take part in the match holds its mask bit (0x80) over a
/// zeroed value, and every participating field holds its BCD (or day
/// ordinal) encoding with the mask bit clear.
pub open spec fn spec_alarm1_registers(c: Alarm1Config) -> DS3231Alarm1 {
    match c {
        Alarm1Config::EverySecond => DS3231Alarm1 {
            seconds: AlarmSeconds(0x80),
            minutes: AlarmMinutes(0x80),
            hours: AlarmHours(0x80),
            day_date: AlarmDayDate(0x80),
        },
        Alarm1Config::AtSeconds { seconds } => DS3231Alarm1 {
            seconds: AlarmSeconds(spec_bcd_byte(seconds as int)),
            minutes: AlarmMinutes(0x80),
            hours: AlarmHours(0x80),
            day_date: AlarmDayDate(0x80),
        },
        Alarm1Config::AtMinutesSeconds { minutes, seconds } => DS3231Alarm1 {
            seconds: AlarmSeconds(spec_bcd_byte(seconds as int)),
            minutes: AlarmMinutes(spec_bcd_byte(minutes as int)),
            hours: AlarmHours(0x80),
            day_date: AlarmDayDate(0x80),
        },
        Alarm1Config::AtTime { hours, minutes, seconds, is_pm } => DS3231Alarm1 {
            seconds: AlarmSeconds(spec_bcd_byte(seconds as int)),
            minutes: AlarmMinutes(spec_bcd_byte(minutes as int)),
            hours: AlarmHours(spec_alarm_hours_byte(hours as int, is_pm)),
            day_date: AlarmDayDate(0x80),
        },
        Alarm1Config::AtTimeOnDate { hours, minutes, seconds, date, is_pm } => DS3231Alarm1 {
            seconds: AlarmSeconds(spec_bcd_byte(seconds as int)),
            minutes: AlarmMinutes(spec_bcd_byte(minutes as int)),
            hours: AlarmHours(spec_alarm_hours_byte(hours as int, is_pm)),
            day_date: AlarmDayDate(spec_bcd_byte(date as int)),
        },
        Alarm1Config::AtTimeOnDay { hours, minutes, seconds, day, is_pm } => DS3231Alarm1 {
            seconds: AlarmSeconds(spec_bcd_byte(seconds as int)),
            minutes: AlarmMinutes(spec_bcd_byte(minutes as int)),
            hours: AlarmHours(spec_alarm_hours_byte(hours as int, is_pm)),
            day_date: AlarmDayDate((64 + day % 16) as u8),
        },
    }
}

/// The outcome of encoding an Alarm 1 configuration: its validation error,
/// or the register image of `spec_alarm1_registers`.
pub open spec fn spec_encode_alarm1(c: Alarm1Config) -> Result<DS3231Alarm1, AlarmError> {
    match c.spec_validate() {
        Err(e) => Err(e),
        Ok(_) => Ok(spec_alarm1_registers(c)),
    }
}

/// The mask bits of an Alarm 1 register image name one of the six legal
/// trigger patterns.
pub open spec fn spec_alarm1_mask_legal(a: DS3231Alarm1) -> bool {
    let m1 = a.seconds.spec_alarm_mask1();
    let m2 = a.minutes.spec_alarm_mask2();
    let m3 = a.hours.spec_alarm_mask3();
    let m4 = a.day_date.spec_alarm_mask4();
    ||| (m1 && m2 && m3 && m4)
    ||| (!m1 && m2 && m3 && m4)
    ||| (!m1 && !m2 && m3 && m4)
    ||| (!m1 && !m2 && !m3 && m4)
    ||| (!m1 && !m2 && !m3 && !m4)
}

/// The configuration stored in an Alarm 1 register image: the mask bits
/// pick the variant per the trigger table, the participating fields are
/// decoded (failures propagating in field order), and with all masks clear
/// the select bit chooses between a day-of-week and a date-of-month match.
/// Any mask pattern outside the table is rejected.
pub open spec fn spec_decode_alarm1(a: DS3231Alarm1) -> Result<Alarm1Config, AlarmError> {
    let m1 = a.seconds.spec_alarm_mask1();
    let m2 = a.minutes.spec_alarm_mask2();
    let m3 = a.hours.spec_alarm_mask3();
    let m4 = a.day_date.spec_alarm_mask4();
    if m1 && m2 && m3 && m4 {
        Ok(Alarm1Config::EverySecond)
    } else if !m1 && m2 && m3 && m4 {
        match spec_decode_alarm_seconds(a.seconds) {
            Err(e) => Err(e),
            Ok(seconds) => Ok(Alarm1Config::AtSeconds { seconds }),
        }
    } else if !m1 && !m2 && m3 && m4 {
        match spec_decode_alarm_seconds(a.seconds) {
            Err(e) => Err(e),
            Ok(seconds) => match spec_decode_alarm_minutes(a.minutes) {
                Err(e) => Err(e),
                Ok(minutes) => Ok(Alarm1Config::AtMinutesSeconds { minutes, seconds }),
            },
        }
    } else if !m1 && !m2 && !m3 && m4 {
        match spec_decode_alarm_seconds(a.seconds) {
            Err(e) => Err(e),
            Ok(seconds) => match spec_decode_alarm_minutes(a.minutes) {
                Err(e) => Err(e),
                Ok(minutes) => match spec_decode_alarm_hours(a.hours) {
                    Err(e) => Err(e),
                    Ok((hours, is_pm)) => Ok(
                        Alarm1Config::AtTime { hours, minutes, seconds, is_pm },
                    ),
                },
            },
        }
    } else if !m1 && !m2 && !m3 && !m4 {
        match spec_decode_alarm_seconds(a.seconds) {
            Err(e) => Err(e),
            Ok(seconds) => match spec_decode_alarm_minutes(a.minutes) {
                Err(e) => Err(e),
                Ok(minutes) => match spec_decode_alarm_hours(a.hours) {
                    Err(e) => Err(e),
                    Ok((hours, is_pm)) => if a.day_date.spec_day_date_select()
                        == DayDateSelect::Day {
                        Ok(
                            Alarm1Config::AtTimeOnDay {
                                hours,
                                minutes,
                                seconds,
                                day: a.day_date.spec_day_or_date(),
                                is_pm,
                            },
                        )
                    } else {
                        match spec_decode_alarm_day_date(a.day_date) {
                            Err(e) => Err(e),
                            Ok(date) => Ok(
                                Alarm1Config::AtTimeOnDate {
                                    hours,
                                    minutes,
                                    seconds,
                                    date,
                                    is_pm,
                                },
                            ),
                        }
                    },
                },
            },
        }
    } else {
        Err(AlarmError::InvalidTime("Invalid alarm mask bit combination"))
    }
}

/// The Alarm 2 register image for a well-formed configuration, as
/// `spec_alarm1_registers` without the seconds register.
pub open spec fn spec_alarm2_registers(c: Alarm2Config) -> DS3231Alarm2 {
    match c {
        Alarm2Config::EveryMinute => DS3231Alarm2 {
            minutes: AlarmMinutes(0x80),
            hours: AlarmHours(0x80),
            day_date: AlarmDayDate(0x80),
        },
        Alarm2Config::AtMinutes { minutes } => DS3231Alarm2 {
            minutes: AlarmMinutes(spec_bcd_byte(minutes as int)),
            hours: AlarmHours(0x80),
            day_date: AlarmDayDate(0x80),
        },
        Alarm2Config::AtTime { hours, minutes, is_pm } => DS3231Alarm2 {
            minutes: AlarmMinutes(spec_bcd_byte(minutes as int)),
            hours: AlarmHours(spec_alarm_hours_byte(hours as int, is_pm)),
            day_date: AlarmDayDate(0x80),
        },
        Alarm2Config::AtTimeOnDate { hours, minutes, date, is_pm } => DS3231Alarm2 {
            minutes: AlarmMinutes(spec_bcd_byte(minutes as int)),
            hours: AlarmHours(spec_alarm_hours_byte(hours as int, is_pm)),
            day_date: AlarmDayDate(spec_bcd_byte(date as int)),
        },
        Alarm2Config::AtTimeOnDay { hours, minutes, day, is_pm } => DS3231Alarm2 {
            minutes: AlarmMinutes(spec_bcd_byte(minutes as int)),
            hours: AlarmHours(spec_alarm_hours_byte(hours as int, is_pm)),
            day_date: AlarmDayDate((64 + day % 16) as u8),
        },
    }
}

/// The outcome of encoding an Alarm 2 configuration: its validation error,
/// or the register image of `spec_alarm2_registers`.
pub open spec fn spec_encode_alarm2(c: Alarm2Config) -> Result<DS3231Alarm2, AlarmError> {
    match c.spec_validate() {
        Err(e) => Err(e),
        Ok(_) => Ok(spec_alarm2_registers(c)),
    }
}

/// The mask bits of an Alarm 2 register image name one of the five legal
/// trigger patterns.
pub open spec fn spec_alarm2_mask_legal(a: DS3231Alarm2) -> bool {
    let m2 = a.minutes.spec_alarm_mask2();
    let m3 = a.hours.spec_alarm_mask3();
    let m4 = a.day_date.spec_alarm_mask4();
    ||| (m2 && m3 && m4)
    ||| (!m2 && m3 && m4)
    ||| (!m2 && !m3 && m4)
    ||| (!m2 && !m3 && !m4)
}

/// The configuration stored in an Alarm 2 register image, as
/// `spec_decode_alarm1` with the seconds row removed from the table.
pub open spec fn spec_decode_alarm2(a: DS3231Alarm2) -> Result<Alarm2Config, AlarmError> {
    let m2 = a.minutes.spec_alarm_mask2();
    let m3 = a.hours.spec_alarm_mask3();
    let m4 = a.day_date.spec_alarm_mask4();
    if m2 && m3 && m4 {
        Ok(Alarm2Config::EveryMinute)
    } else if !m2 && m3 && m4 {
        match spec_decode_alarm_minutes(a.minutes) {
            Err(e) => Err(e),
            Ok(minutes) => Ok(Alarm2Config::AtMinutes { minutes }),
        }
    } else if !m2 && !m3 && m4 {
        match spec_decode_alarm_minutes(a.minutes) {
            Err(e) => Err(e),
            Ok(minutes) => match spec_decode_alarm_hours(a.hours) {
                Err(e) => Err(e),
                Ok((hours, is_pm)) => Ok(Alarm2Config::AtTime { hours, minutes, is_pm }),
            },
        }
    } else if !m2 && !m3 && !m4 {
        match spec_decode_alarm_minutes(a.minutes) {
            Err(e) => Err(e),
            Ok(minutes) => match spec_decode_alarm_hours(a.hours) {
                Err(e) => Err(e),
                Ok((hours, is_pm)) => if a.day_date.spec_day_date_select() == DayDateSelect::Day {
                    Ok(
                        Alarm2Config::AtTimeOnDay {
                            hours,
                            minutes,
                            day: a.day_date.spec_day_or_date(),
                            is_pm,
                        },
                    )
                } else {
                    match spec_decode_alarm_day_date(a.day_date) {
                        Err(e) => Err(e),
                        Ok(date) => Ok(Alarm2Config::AtTimeOnDate { hours, minutes, date, is_pm }),
                    }
                },
            },
        }
    } else {
        Err(AlarmError::InvalidTime("Invalid alarm mask bit combination"))
    }
}

/// Creates configured time components (minutes and hours) for both alarm
/// types, with both mask bits clear.
pub fn create_alarm_time_components(hour: u8, minute: u8, is_pm: Option<bool>) -> (r: Result<
    (AlarmMinutes, AlarmHours),
    AlarmError,
>)
    ensures
        r == spec_create_alarm_time_components(hour, minute, is_pm),
{
    let (min_ones, min_tens) = match DS3231DateTime::make_bcd(minute as u32, 59) {
        Ok(p) => p,
        Err(e) => {
            return Err(AlarmError::DateTime(e));
        },
    };
    let mut minutes = AlarmMinutes::default();
    minutes.set_minutes(min_ones);
    minutes.set_ten_minutes(min_tens);
    proof {
        assert(minutes.0 == spec_bcd_byte(minute as int));
    }

    let mut hours = AlarmHours::default();
    match is_pm {
        None => {
            hours.set_time_representation(TimeRepresentation::TwentyFourHour);
            let hour_reg = match DS3231DateTime::convert_hours(
                hour as u32,
                TimeRepresentation::TwentyFourHour,
            ) {
                Ok(h) => h,
                Err(e) => {
                    return Err(AlarmError::DateTime(e));
                },
            };
            hours.set_hours(hour_reg.hours());
            hours.set_ten_hours(hour_reg.ten_hours());
            hours.set_pm_or_twenty_hours(hour_reg.pm_or_twenty_hours());
            proof {
                let h = hour as int;
                let hb = spec_hours_byte(h, TimeRepresentation::TwentyFourHour) as int;
                assert(hb == (if 10 <= h < 20 {
                    16int
                } else {
                    0int
                }) + (if h >= 20 {
                    32int
                } else {
                    0int
                }) + h % 10);
                assert(0 <= h % 10 <= 9);
                assert(hours.0 == hb);
            }
        },
        Some(pm) => {
            hours.set_time_representation(TimeRepresentation::TwelveHour);
            let hour_reg = match DS3231DateTime::convert_hours(
                hour as u32,
                TimeRepresentation::TwelveHour,
            ) {
                Ok(h) => h,
                Err(e) => {
                    return Err(AlarmError::DateTime(e));
                },
            };
            hours.set_hours(hour_reg.hours());
            hours.set_ten_hours(hour_reg.ten_hours());
            hours.set_pm_or_twenty_hours(
                if pm {
                    1
                } else {
                    0
                },
            );
            proof {
                let h = hour as int;
                let h12 = if h == 0 {
                    12int
                } else if h <= 12 {
                    h
                } else {
                    h - 12
                };
                let p0 = if h >= 12 {
                    32int
                } else {
                    0int
                };
                let hb = spec_hours_byte(h, TimeRepresentation::TwelveHour) as int;
                assert(hb == 64 + p0 + h12 / 10 * 16 + h12 % 10);
                assert(1 <= h12 <= 12 && 0 <= h12 / 10 <= 1 && 0 <= h12 % 10 <= 9)
                    by (nonlinear_arith)
                    requires
                        h12 == (if h == 0 {
                            12int
                        } else if h <= 12 {
                            h
                        } else {
                            h - 12
                        }) && 0 <= h <= 23,
                ;
                assert(hb % 16 == h12 % 10 && (hb / 16) % 2 == h12 / 10) by (nonlinear_arith)
                    requires
                        hb == 64 + p0 + h12 / 10 * 16 + h12 % 10 && (p0 == 0 || p0 == 32) && 0
                            <= h12 / 10 <= 1 && 0 <= h12 % 10 <= 9,
                ;
                assert(hours.0 == spec_alarm_hours_byte(h, is_pm));
            }
        },
    }

    Ok((minutes, hours))
}

/// Creates the configured day/date component for both alarm types, with
/// the mask bit clear.
pub fn create_alarm_day_date_component(day_or_date: u8, is_day: bool) -> (r: Result<
    AlarmDayDate,
    AlarmError,
>)
    ensures
        r == spec_create_alarm_day_date(day_or_date, is_day),
{
    let mut day_date = AlarmDayDate::default();

    if is_day {
        day_date.set_day_date_select(DayDateSelect::Day);
        day_date.set_day_or_date(day_or_date);
    } else {
        day_date.set_day_date_select(DayDateSelect::Date);
        let (date_ones, date_tens) = match DS3231DateTime::make_bcd(day_or_date as u32, 31) {
            Ok(p) => p,
            Err(e) => {
                return Err(AlarmError::DateTime(e));
            },
        };
        day_date.set_day_or_date(date_ones);
        day_date.set_ten_date(date_tens);
        proof {
            assert(day_date.0 == spec_bcd_byte(day_or_date as int));
        }
    }

    Ok(day_date)
}

impl DS3231Alarm1 {
    /// Creates an Alarm 1 register configuration from an `Alarm1Config`.
    ///
    /// # Errors
    ///
    /// Returns an error if the configuration is invalid or contains
    /// out-of-range values.
    pub fn from_config(config: &Alarm1Config) -> (r: Result<Self, AlarmError>)
        ensures
            r == spec_encode_alarm1(*config),
    {
        match config.validate() {
            Err(e) => {
                return Err(e);
            },
            Ok(_) => {},
        }

        let mut alarm = Self {
            seconds: AlarmSeconds::default(),
            minutes: AlarmMinutes::default(),
            hours: AlarmHours::default(),
            day_date: AlarmDayDate::default(),
        };

        match config {
            Alarm1Config::EverySecond => {
                Self::configure_every_second(&mut alarm);
            },
            Alarm1Config::AtSeconds { seconds: sec } => {
                match Self::configure_at_seconds(&mut alarm, *sec) {
                    Ok(_) => {},
                    Err(e) => {
                        return Err(e);
                    },
                }
            },
            Alarm1Config::AtMinutesSeconds { minutes: min, seconds: sec } => {
                match Self::configure_at_minutes_seconds(&mut alarm, *min, *sec) {
                    Ok(_) => {},
                    Err(e) => {
                        return Err(e);
                    },
                }
            },
            Alarm1Config::AtTime { hours: hr, minutes: min, seconds: sec, is_pm } => {
                match Self::configure_at_time(&mut alarm, *hr, *min, *sec, *is_pm) {
                    Ok(_) => {},
                    Err(e) => {
                        return Err(e);
                    },
                }
            },
            Alarm1Config::AtTimeOnDate { hours: hr, minutes: min, seconds: sec, date, is_pm } => {
                match Self::configure_at_time_on_date(&mut alarm, *hr, *min, *sec, *date, *is_pm) {
                    Ok(_) => {},
                    Err(e) => {
                        return Err(e);
                    },
                }
            },
            Alarm1Config::AtTimeOnDay { hours: hr, minutes: min, seconds: sec, day, is_pm } => {
                match Self::configure_at_time_on_day(&mut alarm, *hr, *min, *sec, *day, *is_pm) {
                    Ok(_) => {},
                    Err(e) => {
                        return Err(e);
                    },
                }
            },
        }

        Ok(alarm)
    }

    /// Converts the register values back to an `Alarm1Config`.
    ///
    /// # Errors
    ///
    /// Returns an error if the register values don't form a valid
    /// configuration or contain invalid BCD values.
    pub fn to_config(&self) -> (r: Result<Alarm1Config, AlarmError>)
        ensures
            r == spec_decode_alarm1(*self),
    {
        let mask1 = self.seconds.alarm_mask1();
        let mask2 = self.minutes.alarm_mask2();
        let mask3 = self.hours.alarm_mask3();
        let mask4 = self.day_date.alarm_mask4();

        if mask1 && mask2 && mask3 && mask4 {
            Ok(Alarm1Config::EverySecond)
        } else if !mask1 && mask2 && mask3 && mask4 {
            let seconds = match self.decode_bcd_seconds() {
                Ok(v) => v,
                Err(e) => {
                    return Err(e);
                },
            };
            Ok(Alarm1Config::AtSeconds { seconds })
        } else if !mask1 && !mask2 && mask3 && mask4 {
            let seconds = match self.decode_bcd_seconds() {
                Ok(v) => v,
                Err(e) => {
                    return Err(e);
                },
            };
            let minutes = match self.decode_bcd_minutes() {
                Ok(v) => v,
                Err(e) => {
                    return Err(e);
                },
            };
            Ok(Alarm1Config::AtMinutesSeconds { minutes, seconds })
        } else if !mask1 && !mask2 && !mask3 && mask4 {
            let seconds = match self.decode_bcd_seconds() {
                Ok(v) => v,
                Err(e) => {
                    return Err(e);
                },
            };
            let minutes = match self.decode_bcd_minutes() {
                Ok(v) => v,
                Err(e) => {
                    return Err(e);
                },
            };
            let (hours, is_pm) = match self.decode_bcd_hours() {
                Ok(v) => v,
                Err(e) => {
                    return Err(e);
                },
            };
            Ok(Alarm1Config::AtTime { hours, minutes, seconds, is_pm })
        } else if !mask1 && !mask2 && !mask3 && !mask4 {
            let seconds = match self.decode_bcd_seconds() {
                Ok(v) => v,
                Err(e) => {
                    return Err(e);
                },
            };
            let minutes = match self.decode_bcd_minutes() {
                Ok(v) => v,
                Err(e) => {
                    return Err(e);
                },
            };
            let (hours, is_pm) = match self.decode_bcd_hours() {
                Ok(v) => v,
                Err(e) => {
                    return Err(e);
                },
            };
            if self.day_date.day_date_select() == DayDateSelect::Day {
                let day = self.day_date.day_or_date();
                Ok(Alarm1Config::AtTimeOnDay { hours, minutes, seconds, day, is_pm })
            } else {
                let date = match self.decode_bcd_day_date() {
                    Ok(v) => v,
                    Err(e) => {
                        return Err(e);
                    },
                };
                Ok(Alarm1Config::AtTimeOnDate { hours, minutes, seconds, date, is_pm })
            }
        } else {
            Err(AlarmError::InvalidTime("Invalid alarm mask bit combination"))
        }
    }

    /// Reads the seconds value back from the alarm seconds register,
    /// rejecting out-of-range BCD digits.
    pub fn decode_bcd_seconds(self) -> (r: Result<u8, AlarmError>)
        ensures
            r == spec_decode_alarm_seconds(self.seconds),
    {
        let ones = self.seconds.seconds();
        let tens = self.seconds.ten_seconds();
        if ones > 9 || tens > 5 {
            return Err(AlarmError::InvalidTime("Invalid BCD seconds value"));
        }
        Ok(tens * 10 + ones)
    }

    /// Reads the minutes value back from the alarm minutes register,
    /// rejecting out-of-range BCD digits.
    pub fn decode_bcd_minutes(self) -> (r: Result<u8, AlarmError>)
        ensures
            r == spec_decode_alarm_minutes(self.minutes),
    {
        let ones = self.minutes.minutes();
        let tens = self.minutes.ten_minutes();
        if ones > 9 || tens > 5 {
            return Err(AlarmError::InvalidTime("Invalid BCD minutes value"));
        }
        Ok(tens * 10 + ones)
    }

    /// Reads the hour and meridiem back from the alarm hours register,
    /// rejecting values inconsistent with the stored 12/24-hour mode.
    pub fn decode_bcd_hours(self) -> (r: Result<(u8, Option<bool>), AlarmError>)
        ensures
            r == spec_decode_alarm_hours(self.hours),
    {
        let ones = self.hours.hours();
        let tens = self.hours.ten_hours();

        if ones > 9 || tens > 2 {
            return Err(AlarmError::InvalidTime("Invalid BCD hours value"));
        }

        match self.hours.time_representation() {
            TimeRepresentation::TwentyFourHour => {
                let twenty_hours = self.hours.pm_or_twenty_hours();
                let hours = twenty_hours * 20 + tens * 10 + ones;
                if hours > 23 {
                    return Err(AlarmError::InvalidTime("Invalid 24-hour value"));
                }
                Ok((hours, None))
            },
            TimeRepresentation::TwelveHour => {
                let hours = tens * 10 + ones;
                if hours == 0 || hours > 12 {
                    return Err(AlarmError::InvalidTime("Invalid 12-hour value"));
                }
                let is_pm = self.hours.pm_or_twenty_hours() != 0;
                Ok((hours, Some(is_pm)))
            },
        }
    }

    /// Reads the date of the month back from the alarm day/date register,
    /// rejecting out-of-range BCD digits and dates.
    pub fn decode_bcd_day_date(self) -> (r: Result<u8, AlarmError>)
        ensures
            r == spec_decode_alarm_day_date(self.day_date),
    {
        let ones = self.day_date.day_or_date();
        let tens = self.day_date.ten_date();
        if ones > 9 || tens > 3 {
            return Err(AlarmError::InvalidTime("Invalid BCD date value"));
        }
        let date = tens * 10 + ones;
        if date == 0 || date > 31 {
            return Err(AlarmError::InvalidTime("Invalid date value"));
        }
        Ok(date)
    }

    /// Sets all four mask bits: the alarm matches every second.
    fn configure_every_second(alarm: &mut Self)
        requires
            old(alarm).seconds.0 == 0,
            old(alarm).minutes.0 == 0,
            old(alarm).hours.0 == 0,
            old(alarm).day_date.0 == 0,
        ensures
            *final(alarm) == spec_alarm1_registers(Alarm1Config::EverySecond),
    {
        alarm.seconds.set_alarm_mask1(true);
        alarm.minutes.set_alarm_mask2(true);
        alarm.hours.set_alarm_mask3(true);
        alarm.day_date.set_alarm_mask4(true);
    }

    /// Writes the seconds field and masks out the other three.
    fn configure_at_seconds(alarm: &mut Self, sec: u8) -> (r: Result<(), AlarmError>)
        requires
            old(alarm).seconds.0 == 0,
            old(alarm).minutes.0 == 0,
            old(alarm).hours.0 == 0,
            old(alarm).day_date.0 == 0,
            sec <= 59,
        ensures
            r == Ok::<(), AlarmError>(()),
            *final(alarm) == spec_alarm1_registers(Alarm1Config::AtSeconds { seconds: sec }),
    {
        let (sec_ones, sec_tens) = match DS3231DateTime::make_bcd(sec as u32, 59) {
            Ok(p) => p,
            Err(e) => {
                return Err(AlarmError::DateTime(e));
            },
        };
        alarm.seconds.set_seconds(sec_ones);
        alarm.seconds.set_ten_seconds(sec_tens);
        alarm.seconds.set_alarm_mask1(false);
        alarm.minutes.set_alarm_mask2(true);
        alarm.hours.set_alarm_mask3(true);
        alarm.day_date.set_alarm_mask4(true);
        Ok(())
    }

    /// Writes the seconds and minutes fields and masks out the other two.
    fn configure_at_minutes_seconds(alarm: &mut Self, min: u8, sec: u8) -> (r: Result<
        (),
        AlarmError,
    >)
        requires
            old(alarm).seconds.0 == 0,
            old(alarm).minutes.0 == 0,
            old(alarm).hours.0 == 0,
            old(alarm).day_date.0 == 0,
            min <= 59,
            sec <= 59,
        ensures
            r == Ok::<(), AlarmError>(()),
            *final(alarm) == spec_alarm1_registers(
                Alarm1Config::AtMinutesSeconds { minutes: min, seconds: sec },
            ),
    {
        let (sec_ones, sec_tens) = match DS3231DateTime::make_bcd(sec as u32, 59) {
            Ok(p) => p,
            Err(e) => {
                return Err(AlarmError::DateTime(e));
            },
        };
        alarm.seconds.set_seconds(sec_ones);
        alarm.seconds.set_ten_seconds(sec_tens);
        alarm.seconds.set_alarm_mask1(false);

        let (min_ones, min_tens) = match DS3231DateTime::make_bcd(min as u32, 59) {
            Ok(p) => p,
            Err(e) => {
                return Err(AlarmError::DateTime(e));
            },
        };
        alarm.minutes.set_minutes(min_ones);
        alarm.minutes.set_ten_minutes(min_tens);
        alarm.minutes.set_alarm_mask2(false);

        alarm.hours.set_alarm_mask3(true);
        alarm.day_date.set_alarm_mask4(true);
        Ok(())
    }

    /// Writes the three time fields and masks out the day/date field: the
    /// alarm matches daily at the given time.
    fn configure_at_time(alarm: &mut Self, hr: u8, min: u8, sec: u8, is_pm: Option<bool>) -> (r:
        Result<(), AlarmError>)
        requires
            old(alarm).seconds.0 == 0,
            old(alarm).day_date.0 == 0,
            min <= 59,
            sec <= 59,
            spec_alarm_hours_wf(hr, is_pm),
        ensures
            r == Ok::<(), AlarmError>(()),
            *final(alarm) == spec_alarm1_registers(
                Alarm1Config::AtTime { hours: hr, minutes: min, seconds: sec, is_pm },
            ),
    {
        match Self::set_time_components(
            &mut alarm.seconds,
            &mut alarm.minutes,
            &mut alarm.hours,
            hr,
            min,
            sec,
            is_pm,
        ) {
            Ok(_) => {},
            Err(e) => {
                return Err(e);
            },
        }
        alarm.seconds.set_alarm_mask1(false);
        alarm.minutes.set_alarm_mask2(false);
        alarm.hours.set_alarm_mask3(false);
        alarm.day_date.set_alarm_mask4(true);
        Ok(())
    }

    /// Writes the three time fields and a BCD date of the month, with all
    /// mask bits clear and the select bit choosing a date match.
    fn configure_at_time_on_date(
        alarm: &mut Self,
        hr: u8,
        min: u8,
        sec: u8,
        date: u8,
        is_pm: Option<bool>,
    ) -> (r: Result<(), AlarmError>)
        requires
            old(alarm).seconds.0 == 0,
            old(alarm).day_date.0 == 0,
            min <= 59,
            sec <= 59,
            spec_alarm_hours_wf(hr, is_pm),
            1 <= date <= 31,
        ensures
            r == Ok::<(), AlarmError>(()),
            *final(alarm) == spec_alarm1_registers(
                Alarm1Config::AtTimeOnDate { hours: hr, minutes: min, seconds: sec, date, is_pm },
            ),
    {
        match Self::set_time_components(
            &mut alarm.seconds,
            &mut alarm.minutes,
            &mut alarm.hours,
            hr,
            min,
            sec,
            is_pm,
        ) {
            Ok(_) => {},
            Err(e) => {
                return Err(e);
            },
        }
        alarm.seconds.set_alarm_mask1(false);
        alarm.minutes.set_alarm_mask2(false);
        alarm.hours.set_alarm_mask3(false);
        alarm.day_date.set_alarm_mask4(false);

        alarm.day_date = match create_alarm_day_date_component(date, false) {
            Ok(v) => v,
            Err(e) => {
                return Err(e);
            },
        };
        Ok(())
    }

    /// Writes the three time fields and a day-of-week ordinal, with all
    /// mask bits clear and the select bit choosing a day match.
    #[verifier::rlimit(50)]
    fn configure_at_time_on_day(
        alarm: &mut Self,
        hr: u8,
        min: u8,
        sec: u8,
        day: u8,
        is_pm: Option<bool>,
    ) -> (r: Result<(), AlarmError>)
        requires
            old(alarm).seconds.0 == 0,
            old(alarm).day_date.0 == 0,
            min <= 59,
            sec <= 59,
            spec_alarm_hours_wf(hr, is_pm),
            1 <= day <= 7,
        ensures
            r == Ok::<(), AlarmError>(()),
            *final(alarm) == spec_alarm1_registers(
                Alarm1Config::AtTimeOnDay { hours: hr, minutes: min, seconds: sec, day, is_pm },
            ),
    {
        match Self::set_time_components(
            &mut alarm.seconds,
            &mut alarm.minutes,
            &mut alarm.hours,
            hr,
            min,
            sec,
            is_pm,
        ) {
            Ok(_) => {},
            Err(e) => {
                return Err(e);
            },
        }
        alarm.seconds.set_alarm_mask1(false);
        alarm.minutes.set_alarm_mask2(false);
        alarm.hours.set_alarm_mask3(false);
        alarm.day_date.set_alarm_mask4(false);

        alarm.day_date = match create_alarm_day_date_component(day, true) {
            Ok(v) => v,
            Err(e) => {
                return Err(e);
            },
        };
        Ok(())
    }

    /// Writes the seconds, minutes and hours registers for an alarm time,
    /// leaving the mask bits clear.
    fn set_time_components(
        seconds: &mut AlarmSeconds,
        minutes: &mut AlarmMinutes,
        hours: &mut AlarmHours,
        hour: u8,
        minute: u8,
        second: u8,
        is_pm: Option<bool>,
    ) -> (r: Result<(), AlarmError>)
        requires
            old(seconds).0 == 0,
            minute <= 59,
            second <= 59,
            spec_alarm_hours_wf(hour, is_pm),
        ensures
            r == Ok::<(), AlarmError>(()),
            final(seconds).0 == spec_bcd_byte(second as int),
            final(minutes).0 == spec_bcd_byte(minute as int),
            final(hours).0 == spec_alarm_hours_byte(hour as int, is_pm),
    {
        let (sec_ones, sec_tens) = match DS3231DateTime::make_bcd(second as u32, 59) {
            Ok(p) => p,
            Err(e) => {
                return Err(AlarmError::DateTime(e));
            },
        };
        seconds.set_seconds(sec_ones);
        seconds.set_ten_seconds(sec_tens);

        let (new_minutes, new_hours) = match create_alarm_time_components(hour, minute, is_pm) {
            Ok(p) => p,
            Err(e) => {
                return Err(e);
            },
        };
        *minutes = new_minutes;
        *hours = new_hours;
        Ok(())
    }

    /// Gets the alarm seconds register
    pub fn seconds(&self) -> (r: AlarmSeconds)
        ensures
            r == self.seconds,
    {
        self.seconds
    }

    /// Gets the alarm minutes register
    pub fn minutes(&self) -> (r: AlarmMinutes)
        ensures
            r == self.minutes,
    {
        self.minutes
    }

    /// Gets the alarm hours register
    pub fn hours(&self) -> (r: AlarmHours)
        ensures
            r == self.hours,
    {
        self.hours
    }

    /// Gets the alarm day/date register
    pub fn day_date(&self) -> (r: AlarmDayDate)
        ensures
            r == self.day_date,
    {
        self.day_date
    }

    /// Creates an Alarm 1 configuration from existing register values.
    pub fn from_registers(
        seconds: AlarmSeconds,
        minutes: AlarmMinutes,
        hours: AlarmHours,
        day_date: AlarmDayDate,
    ) -> (r: Self)
        ensures
            r == (DS3231Alarm1 { seconds, minutes, hours, day_date }),
    {
        DS3231Alarm1 { seconds, minutes, hours, day_date }
    }
}

impl DS3231Alarm2 {
    /// Creates an Alarm 2 register configuration from an `Alarm2Config`.
    ///
    /// # Errors
    ///
    /// Returns an error if the configuration is invalid or contains
    /// out-of-range values.
    #[verifier::rlimit(100)]
    pub fn from_config(config: &Alarm2Config) -> (r: Result<Self, AlarmError>)
        ensures
            r == spec_encode_alarm2(*config),
    {
        match config.validate() {
            Err(e) => {
                return Err(e);
            },
            Ok(_) => {},
        }

        let mut minutes = AlarmMinutes::default();
        let mut hours = AlarmHours::default();
        let mut day_date = AlarmDayDate::default();

        match config {
            Alarm2Config::EveryMinute => {
                minutes.set_alarm_mask2(true);
                hours.set_alarm_mask3(true);
                day_date.set_alarm_mask4(true);
            },
            Alarm2Config::AtMinutes { minutes: min } => {
                let (min_ones, min_tens) = match DS3231DateTime::make_bcd(*min as u32, 59) {
                    Ok(p) => p,
                    Err(e) => {
                        return Err(AlarmError::DateTime(e));
                    },
                };
                minutes.set_minutes(min_ones);
                minutes.set_ten_minutes(min_tens);
                proof {
                    assert(minutes.0 == spec_bcd_byte(*min as int) && minutes.0 < 128);
                }
                minutes.set_alarm_mask2(false);
                hours.set_alarm_mask3(true);
                day_date.set_alarm_mask4(true);
                proof {
                    assert(DS3231Alarm2 { minutes, hours, day_date } == spec_alarm2_registers(
                        *config,
                    ));
                }
            },
            Alarm2Config::AtTime { hours: hr, minutes: min, is_pm } => {
                match Self::set_time_components(&mut minutes, &mut hours, *hr, *min, *is_pm) {
                    Ok(_) => {},
                    Err(e) => {
                        return Err(e);
                    },
                }
                proof {
                    assert(minutes.0 < 128 && hours.0 < 128);
                }
                minutes.set_alarm_mask2(false);
                hours.set_alarm_mask3(false);
                day_date.set_alarm_mask4(true);
                proof {
                    assert(DS3231Alarm2 { minutes, hours, day_date } == spec_alarm2_registers(
                        *config,
                    ));
                }
            },
            Alarm2Config::AtTimeOnDate { hours: hr, minutes: min, date, is_pm } => {
                match Self::set_time_components(&mut minutes, &mut hours, *hr, *min, *is_pm) {
                    Ok(_) => {},
                    Err(e) => {
                        return Err(e);
                    },
                }
                proof {
                    assert(minutes.0 < 128 && hours.0 < 128);
                }
                minutes.set_alarm_mask2(false);
                hours.set_alarm_mask3(false);
                day_date.set_alarm_mask4(false);

                day_date = match create_alarm_day_date_component(*date, false) {
                    Ok(v) => v,
                    Err(e) => {
                        return Err(e);
                    },
                };
                proof {
                    assert(DS3231Alarm2 { minutes, hours, day_date } == spec_alarm2_registers(
                        *config,
                    ));
                }
            },
            Alarm2Config::AtTimeOnDay { hours: hr, minutes: min, day, is_pm } => {
                match Self::set_time_components(&mut minutes, &mut hours, *hr, *min, *is_pm) {
                    Ok(_) => {},
                    Err(e) => {
                        return Err(e);
                    },
                }
                proof {
                    assert(minutes.0 < 128 && hours.0 < 128);
                }
                minutes.set_alarm_mask2(false);
                hours.set_alarm_mask3(false);
                day_date.set_alarm_mask4(false);

                day_date = match create_alarm_day_date_component(*day, true) {
                    Ok(v) => v,
                    Err(e) => {
                        return Err(e);
                    },
                };
                proof {
                    assert(DS3231Alarm2 { minutes, hours, day_date } == spec_alarm2_registers(
                        *config,
                    ));
                }
            },
        }

        Ok(DS3231Alarm2 { minutes, hours, day_date })
    }

    /// Converts the register values back to an `Alarm2Config`.
    ///
    /// # Errors
    ///
    /// Returns an error if the register values don't form a valid
    /// configuration or contain invalid BCD values.
    pub fn to_config(&self) -> (r: Result<Alarm2Config, AlarmError>)
        ensures
            r == spec_decode_alarm2(*self),
    {
        let mask2 = self.minutes.alarm_mask2();
        let mask3 = self.hours.alarm_mask3();
        let mask4 = self.day_date.alarm_mask4();

        if mask2 && mask3 && mask4 {
            Ok(Alarm2Config::EveryMinute)
        } else if !mask2 && mask3 && mask4 {
            let minutes = match self.decode_bcd_minutes() {
                Ok(v) => v,
                Err(e) => {
                    return Err(e);
                },
            };
            Ok(Alarm2Config::AtMinutes { minutes })
        } else if !mask2 && !mask3 && mask4 {
            let minutes = match self.decode_bcd_minutes() {
                Ok(v) => v,
                Err(e) => {
                    return Err(e);
                },
            };
            let (hours, is_pm) = match self.decode_bcd_hours() {
                Ok(v) => v,
                Err(e) => {
                    return Err(e);
                },
            };
            Ok(Alarm2Config::AtTime { hours, minutes, is_pm })
        } else if !mask2 && !mask3 && !mask4 {
            let minutes = match self.decode_bcd_minutes() {
                Ok(v) => v,
                Err(e) => {
                    return Err(e);
                },
            };
            let (hours, is_pm) = match self.decode_bcd_hours() {
                Ok(v) => v,
                Err(e) => {
                    return Err(e);
                },
            };
            if self.day_date.day_date_select() == DayDateSelect::Day {
                let day = self.day_date.day_or_date();
                Ok(Alarm2Config::AtTimeOnDay { hours, minutes, day, is_pm })
            } else {
                let date = match self.decode_bcd_day_date() {
                    Ok(v) => v,
                    Err(e) => {
                        return Err(e);
                    },
                };
                Ok(Alarm2Config::AtTimeOnDate { hours, minutes, date, is_pm })
            }
        } else {
            Err(AlarmError::InvalidTime("Invalid alarm mask bit combination"))
        }
    }

    /// Reads the minutes value back from the alarm minutes register,
    /// rejecting out-of-range BCD digits.
    pub fn decode_bcd_minutes(self) -> (r: Result<u8, AlarmError>)
        ensures
            r == spec_decode_alarm_minutes(self.minutes),
    {
        let ones = self.minutes.minutes();
        let tens = self.minutes.ten_minutes();
        if ones > 9 || tens > 5 {
            return Err(AlarmError::InvalidTime("Invalid BCD minutes value"));
        }
        Ok(tens * 10 + ones)
    }

    /// Reads the hour and meridiem back from the alarm hours register,
    /// rejecting values inconsistent with the stored 12/24-hour mode.
    pub fn decode_bcd_hours(self) -> (r: Result<(u8, Option<bool>), AlarmError>)
        ensures
            r == spec_decode_alarm_hours(self.hours),
    {
        let ones = self.hours.hours();
        let tens = self.hours.ten_hours();

        if ones > 9 || tens > 2 {
            return Err(AlarmError::InvalidTime("Invalid BCD hours value"));
        }

        match self.hours.time_representation() {
            TimeRepresentation::TwentyFourHour => {
                let twenty_hours = self.hours.pm_or_twenty_hours();
                let hours = twenty_hours * 20 + tens * 10 + ones;
                if hours > 23 {
                    return Err(AlarmError::InvalidTime("Invalid 24-hour value"));
                }
                Ok((hours, None))
            },
            TimeRepresentation::TwelveHour => {
                let hours = tens * 10 + ones;
                if hours == 0 || hours > 12 {
                    return Err(AlarmError::InvalidTime("Invalid 12-hour value"));
                }
                let is_pm = self.hours.pm_or_twenty_hours() != 0;
                Ok((hours, Some(is_pm)))
            },
        }
    }

    /// Reads the date of the month back from the alarm day/date register,
    /// rejecting out-of-range BCD digits and dates.
    pub fn decode_bcd_day_date(self) -> (r: Result<u8, AlarmError>)
        ensures
            r == spec_decode_alarm_day_date(self.day_date),
    {
        let ones = self.day_date.day_or_date();
        let tens = self.day_date.ten_date();
        if ones > 9 || tens > 3 {
            return Err(AlarmError::InvalidTime("Invalid BCD date value"));
        }
        let date = tens * 10 + ones;
        if date == 0 || date > 31 {
            return Err(AlarmError::InvalidTime("Invalid date value"));
        }
        Ok(date)
    }

    /// Writes the minutes and hours registers for an alarm time, leaving
    /// the mask bits clear.
    fn set_time_components(
        minutes: &mut AlarmMinutes,
        hours: &mut AlarmHours,
        hour: u8,
        minute: u8,
        is_pm: Option<bool>,
    ) -> (r: Result<(), AlarmError>)
        requires
            minute <= 59,
            spec_alarm_hours_wf(hour, is_pm),
        ensures
            r == Ok::<(), AlarmError>(()),
            final(minutes).0 == spec_bcd_byte(minute as int),
            final(hours).0 == spec_alarm_hours_byte(hour as int, is_pm),
    {
        let (new_minutes, new_hours) = match create_alarm_time_components(hour, minute, is_pm) {
            Ok(p) => p,
            Err(e) => {
                return Err(e);
            },
        };
        *minutes = new_minutes;
        *hours = new_hours;
        Ok(())
    }

    /// Gets the alarm minutes register
    pub fn minutes(&self) -> (r: AlarmMinutes)
        ensures
            r == self.minutes,
    {
        self.minutes
    }

    /// Gets the alarm hours register
    pub fn hours(&self) -> (r: AlarmHours)
        ensures
            r == self.hours,
    {
        self.hours
    }

    /// Gets the alarm day/date register
    pub fn day_date(&self) -> (r: AlarmDayDate)
        ensures
            r == self.day_date,
    {
        self.day_date
    }

    /// Creates an Alarm 2 configuration from existing register values.
    pub fn from_registers(
        minutes: AlarmMinutes,
        hours: AlarmHours,
        day_date: AlarmDayDate,
    ) -> (r: Self)
        ensures
            r == (DS3231Alarm2 { minutes, hours, day_date }),
    {
        DS3231Alarm2 { minutes, hours, day_date }
    }
}

/// A BCD seconds or minutes byte for a value 0-59 keeps its mask bit
/// clear and decodes back to the value.
pub proof fn lemma_alarm_bcd_round_trip(v: u8)
    requires
        v <= 59,
    ensures
        spec_bcd_byte(v as int) < 128,
        spec_decode_alarm_seconds(AlarmSeconds(spec_bcd_byte(v as int))) == Ok::<u8, AlarmError>(v),
        spec_decode_alarm_minutes(AlarmMinutes(spec_bcd_byte(v as int))) == Ok::<u8, AlarmError>(v),
{
    crate::datetime::lemma_bcd_byte_digits(v as int);
    let b = spec_bcd_byte(v as int) as int;
    assert(0 <= v as int / 10 <= 5 && 0 <= v as int % 10 <= 9);
    assert(b == v as int / 10 * 16 + v as int % 10);
    assert(b < 128);
    assert((b / 16) % 8 == v as int / 10);
}

/// The alarm hours byte of a well-formed alarm time keeps its mask bit
/// clear and decodes back to the same hour and meridiem.
pub proof fn lemma_alarm_hours_round_trip(h: u8, is_pm: Option<bool>)
    requires
        spec_alarm_hours_wf(h, is_pm),
    ensures
        spec_alarm_hours_byte(h as int, is_pm) < 128,
        spec_decode_alarm_hours(AlarmHours(spec_alarm_hours_byte(h as int, is_pm))) == Ok::<
            (u8, Option<bool>),
            AlarmError,
        >((h, is_pm)),
{
    let hi = h as int;
    let b = spec_alarm_hours_byte(hi, is_pm) as int;
    match is_pm {
        None => {
            assert(b == (if 10 <= hi < 20 {
                16int
            } else {
                0int
            }) + (if hi >= 20 {
                32int
            } else {
                0int
            }) + hi % 10);
            assert(0 <= hi % 10 <= 9);
            assert(b < 64);
            assert(10 * ((b / 16) % 2) + b % 16 + 20 * ((b / 32) % 2) == hi) by {
                assert(10 * (hi / 10) + hi % 10 == hi) by (nonlinear_arith)
                    requires
                        0 <= hi,
                ;
            }
        },
        Some(pm) => {
            let h12 = if hi == 0 {
                12int
            } else if hi <= 12 {
                hi
            } else {
                hi - 12
            };
            let p = if pm {
                32int
            } else {
                0int
            };
            assert(h12 == hi);
            assert(b == 64 + p + hi / 10 * 16 + hi % 10);
            assert(0 <= hi / 10 <= 1 && 1 <= hi % 10 + 10 * (hi / 10) <= 12) by (nonlinear_arith)
                requires
                    1 <= hi <= 12,
            ;
            assert(b < 128);
            assert((b / 64) % 2 == 1 && (b / 32) % 2 == p / 32 && (b / 16) % 2 == hi / 10 && b % 16
                == hi % 10) by (nonlinear_arith)
                requires
                    b == 64 + p + hi / 10 * 16 + hi % 10 && (p == 0 || p == 32) && 0 <= hi / 10 <= 1
                        && 0 <= hi % 10 <= 9,
            ;
        },
    }
}

/// The alarm day/date byte of a date 1-31 keeps its mask bit clear,
/// selects a date match, and decodes back to the date; the byte of a day
/// ordinal 1-7 keeps its mask bit clear, selects a day match, and stores
/// the ordinal in its low nibble.
pub proof fn lemma_alarm_day_date_round_trip(v: u8, is_day: bool)
    requires
        if is_day {
            1 <= v <= 7
        } else {
            1 <= v <= 31
        },
    ensures
        ({
            let b = spec_create_alarm_day_date(v, is_day)->Ok_0;
            &&& spec_create_alarm_day_date(v, is_day) is Ok
            &&& !b.spec_alarm_mask4()
            &&& b.spec_day_date_select() == (if is_day {
                DayDateSelect::Day
            } else {
                DayDateSelect::Date
            })
            &&& if is_day {
                b.spec_day_or_date() == v
            } else {
                spec_decode_alarm_day_date(b) == Ok::<u8, AlarmError>(v)
            }
        }),
{
    if is_day {
        let b = (64 + v % 16) as u8;
        assert(v % 16 == v);
        assert(b == 64 + v);
        assert(b / 128 == 0 && (b / 64) % 2 == 1 && b % 16 == v);
    } else {
        crate::datetime::lemma_bcd_byte_digits(v as int);
        let b = spec_bcd_byte(v as int) as int;
        assert(0 <= v as int / 10 <= 3 && 0 <= v as int % 10 <= 9);
        assert(b == v as int / 10 * 16 + v as int % 10);
        assert(b < 64);
        assert((b / 16) % 4 == v as int / 10);
    }
}

/// Round trip: decoding the register image of any well-formed Alarm 1
/// configuration yields that configuration again.
pub proof fn lemma_alarm1_round_trip(c: Alarm1Config)
    requires
        c.wf(),
    ensures
        spec_encode_alarm1(c) matches Ok(a) && spec_decode_alarm1(a) == Ok::<
            Alarm1Config,
            AlarmError,
        >(c),
{
    let a = spec_alarm1_registers(c);
    match c {
        Alarm1Config::EverySecond => {},
        Alarm1Config::AtSeconds { seconds } => {
            lemma_alarm_bcd_round_trip(seconds);
        },
        Alarm1Config::AtMinutesSeconds { minutes, seconds } => {
            lemma_alarm_bcd_round_trip(seconds);
            lemma_alarm_bcd_round_trip(minutes);
        },
        Alarm1Config::AtTime { hours, minutes, seconds, is_pm } => {
            lemma_alarm_bcd_round_trip(seconds);
            lemma_alarm_bcd_round_trip(minutes);
            lemma_alarm_hours_round_trip(hours, is_pm);
        },
        Alarm1Config::AtTimeOnDate { hours, minutes, seconds, date, is_pm } => {
            lemma_alarm_bcd_round_trip(seconds);
            lemma_alarm_bcd_round_trip(minutes);
            lemma_alarm_hours_round_trip(hours, is_pm);
            lemma_alarm_day_date_round_trip(date, false);
        },
        Alarm1Config::AtTimeOnDay { hours, minutes, seconds, day, is_pm } => {
            lemma_alarm_bcd_round_trip(seconds);
            lemma_alarm_bcd_round_trip(minutes);
            lemma_alarm_hours_round_trip(hours, is_pm);
            lemma_alarm_day_date_round_trip(day, true);
        },
    }
}

/// Round trip: decoding the register image of any well-formed Alarm 2
/// configuration yields that configuration again.
pub proof fn lemma_alarm2_round_trip(c: Alarm2Config)
    requires
        c.wf(),
    ensures
        spec_encode_alarm2(c) matches Ok(a) && spec_decode_alarm2(a) == Ok::<
            Alarm2Config,
            AlarmError,
        >(c),
{
    let a = spec_alarm2_registers(c);
    match c {
        Alarm2Config::EveryMinute => {},
        Alarm2Config::AtMinutes { minutes } => {
            lemma_alarm_bcd_round_trip(minutes);
        },
        Alarm2Config::AtTime { hours, minutes, is_pm } => {
            lemma_alarm_bcd_round_trip(minutes);
            lemma_alarm_hours_round_trip(hours, is_pm);
        },
        Alarm2Config::AtTimeOnDate { hours, minutes, date, is_pm } => {
            lemma_alarm_bcd_round_trip(minutes);
            lemma_alarm_hours_round_trip(hours, is_pm);
            lemma_alarm_day_date_round_trip(date, false);
        },
        Alarm2Config::AtTimeOnDay { hours, minutes, day, is_pm } => {
            lemma_alarm_bcd_round_trip(minutes);
            lemma_alarm_hours_round_trip(hours, is_pm);
            lemma_alarm_day_date_round_trip(day, true);
        },
    }
}

/// Mask table exhaustiveness for Alarm 1: a register image whose mask bits
/// fall outside the six legal patterns is rejected as an invalid mask
/// combination, and one inside them decodes to a configuration whenever
/// the fields it consults decode.
pub proof fn lemma_alarm1_mask_table(a: DS3231Alarm1)
    ensures
        !spec_alarm1_mask_legal(a) ==> spec_decode_alarm1(a) == Err::<Alarm1Config, AlarmError>(
            AlarmError::InvalidTime("Invalid alarm mask bit combination"),
        ),
        spec_alarm1_mask_legal(a) && spec_decode_alarm_seconds(a.seconds) is Ok
            && spec_decode_alarm_minutes(a.minutes) is Ok && spec_decode_alarm_hours(a.hours) is Ok
            && (a.day_date.spec_day_date_select() == DayDateSelect::Date
            ==> spec_decode_alarm_day_date(a.day_date) is Ok) ==> spec_decode_alarm1(a) is Ok,
{
}

/// Mask table exhaustiveness for Alarm 2: a register image whose mask bits
/// fall outside the five legal patterns is rejected as an invalid mask
/// combination, and one inside them decodes to a configuration whenever
/// the fields it consults decode.
pub proof fn lemma_alarm2_mask_table(a: DS3231Alarm2)
    ensures
        !spec_alarm2_mask_legal(a) ==> spec_decode_alarm2(a) == Err::<Alarm2Config, AlarmError>(
            AlarmError::InvalidTime("Invalid alarm mask bit combination"),
        ),
        spec_alarm2_mask_legal(a) && spec_decode_alarm_minutes(a.minutes) is Ok
            && spec_decode_alarm_hours(a.hours) is Ok && (a.day_date.spec_day_date_select()
            == DayDateSelect::Date ==> spec_decode_alarm_day_date(a.day_date) is Ok)
            ==> spec_decode_alarm2(a) is Ok,
{
}

} // verus!
