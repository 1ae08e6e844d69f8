//! Register codec for the DS3231 real-time-clock chip.
//!
//! The DS3231 stores time, date, two alarms and temperature in BCD-encoded
//! 8-bit registers. This crate provides the verified codec between those
//! packed register bytes and ordinary calendar values: the seven time/date
//! registers (with the year-2100 century flag), the Alarm 1 and Alarm 2
//! register sets (with their mask-bit trigger patterns), and the BCD and
//! 12/24-hour encoding rules shared by both. All bus I/O is left to the
//! caller; every function here is a pure conversion that either produces a
//! value or reports a typed error.

use vstd::prelude::*;

pub mod alarm;
pub mod calendar;
pub mod datetime;
pub mod registers;

pub use crate::alarm::{Alarm1Config, Alarm2Config, AlarmError, DS3231Alarm1, DS3231Alarm2};
pub use crate::calendar::CalendarDateTime;
pub use crate::datetime::{DS3231DateTime, DS3231DateTimeError};
pub use crate::registers::Ocillator as Oscillator;
pub use crate::registers::{
    AgingOffset, AlarmDayDate, AlarmHours, AlarmMinutes, AlarmSeconds, Control, Date, Day,
    DayDateSelect, Hours, InterruptControl, Minutes, Month, Ocillator, RegAddr, Seconds,
    SquareWaveFrequency, Status, Temperature, TemperatureFraction, TimeRepresentation, Year,
};

verus! {

/// Configuration for the DS3231 RTC device.
///
/// This struct contains all configurable parameters for the DS3231 device,
/// including time representation format, square wave output settings,
/// and oscillator control.
#[derive(Copy, Clone, Debug, PartialEq, Eq, Structural)]
pub struct Config {
    /// Time representation format (12-hour or 24-hour)
    pub time_representation: TimeRepresentation,
    /// Frequency of the square wave output
    pub square_wave_frequency: SquareWaveFrequency,
    /// Control mode for the interrupt output pin
    pub interrupt_control: InterruptControl,
    /// Enable square wave output when running on battery power
    pub battery_backed_square_wave: bool,
    /// Enable or disable the oscillator
    pub oscillator_enable: Ocillator,
}

impl Config {
    /// Writes this configuration's fields into a control register byte,
    /// leaving the bits the configuration does not cover (temperature
    /// conversion and the two alarm interrupt enables) unchanged.
    pub fn apply_to(&self, control: Control) -> (r: Control)
        ensures
            r.spec_oscillator_enable() == self.oscillator_enable,
            r.spec_battery_backed_square_wave() == self.battery_backed_square_wave,
            r.spec_square_wave_frequency() == self.square_wave_frequency,
            r.spec_interrupt_control() == self.interrupt_control,
            r.spec_convert_temperature() == control.spec_convert_temperature(),
            r.spec_alarm2_interrupt_enable() == control.spec_alarm2_interrupt_enable(),
            r.spec_alarm1_interrupt_enable() == control.spec_alarm1_interrupt_enable(),
    {
        let osc: u8 = match self.oscillator_enable {
            Ocillator::Enabled => 0,
            Ocillator::Disabled => 1,
        };
        let bb: u8 = if self.battery_backed_square_wave {
            1
        } else {
            0
        };
        let swf: u8 = match self.square_wave_frequency {
            SquareWaveFrequency::Hz1 => 0,
            SquareWaveFrequency::Hz1024 => 1,
            SquareWaveFrequency::Hz4096 => 2,
            SquareWaveFrequency::Hz8192 => 3,
        };
        let ic: u8 = match self.interrupt_control {
            InterruptControl::SquareWave => 0,
            InterruptControl::Interrupt => 1,
        };
        let ct: u8 = if control.convert_temperature() {
            1
        } else {
            0
        };
        let a2: u8 = if control.alarm2_interrupt_enable() {
            1
        } else {
            0
        };
        let a1: u8 = if control.alarm1_interrupt_enable() {
            1
        } else {
            0
        };
        let b: u8 = osc * 128 + bb * 64 + ct * 32 + swf * 8 + ic * 4 + a2 * 2 + a1;
        proof {
            let bi = b as int;
            assert(bi / 128 == osc && (bi / 64) % 2 == bb && (bi / 32) % 2 == ct && (bi / 8) % 4
                == swf && (bi / 4) % 2 == ic && (bi / 2) % 2 == a2 && bi % 2 == a1)
                by (nonlinear_arith)
                requires
                    bi == osc * 128 + bb * 64 + ct * 32 + swf * 8 + ic * 4 + a2 * 2 + a1 && 0 <= osc
                        <= 1 && 0 <= bb <= 1 && 0 <= ct <= 1 && 0 <= swf <= 3 && 0 <= ic <= 1 && 0
                        <= a2 <= 1 && 0 <= a1 <= 1,
            ;
        }
        Control(b)
    }
}

/// Error type for DS3231 operations.
#[derive(Debug)]
pub enum DS3231Error<I2CE> {
    /// I2C bus error
    I2c(I2CE),
    /// `DateTime` validation or conversion error
    DateTime(DS3231DateTimeError),
    /// Alarm configuration error
    Alarm(AlarmError),
}

impl<I2CE> From<I2CE> for DS3231Error<I2CE> {
    /// Wraps an I2C bus error.
    fn from(e: I2CE) -> (r: Self) {
        DS3231Error::I2c(e)
    }
}

impl<I2CE> vstd::std_specs::convert::FromSpecImpl<I2CE> for DS3231Error<I2CE> {
    open spec fn obeys_from_spec() -> bool {
        true
    }

    open spec fn from_spec(e: I2CE) -> Self {
        DS3231Error::I2c(e)
    }
}

} // verus!
