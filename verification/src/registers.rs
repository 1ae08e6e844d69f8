//! Register definitions for the DS3231 RTC.
//!
//! Each register is a value type wrapping one raw byte, with named accessors
//! for its bit fields. Every accessor states exactly which bits it reads or
//! writes, in plain arithmetic on the byte, so the codec layers can be proved
//! against the documented layouts: for a BCD register the low nibble is the
//! ones digit and the bits above it the tens digit, with control or mask
//! flags in the remaining high bits.

use vstd::prelude::*;

verus! {

/// Register addresses for the DS3231 RTC.
///
/// The variants are listed in the order of the chip's register map, starting
/// at the seconds register; `address` gives the byte offset on the bus.
#[derive(Clone, Copy, Debug, PartialEq, Eq, Structural)]
pub enum RegAddr {
    /// Seconds register (0-59)
    Seconds,
    /// Minutes register (0-59)
    Minutes,
    /// Hours register (1-12 + AM/PM or 0-23)
    Hours,
    /// Day register (1-7)
    Day,
    /// Date register (1-31)
    Date,
    /// Month register (1-12)
    Month,
    /// Year register (0-99)
    Year,
    /// Alarm 1 seconds register
    Alarm1Seconds,
    /// Alarm 1 minutes register
    Alarm1Minutes,
    /// Alarm 1 hours register
    Alarm1Hours,
    /// Alarm 1 day/date register
    Alarm1DayDate,
    /// Alarm 2 minutes register
    Alarm2Minutes,
    /// Alarm 2 hours register
    Alarm2Hours,
    /// Alarm 2 day/date register
    Alarm2DayDate,
    /// Control register
    Control,
    /// Control/Status register
    ControlStatus,
    /// Aging offset register
    AgingOffset,
    /// Temperature MSB register
    MSBTemp,
    /// Temperature LSB register
    LSBTemp,
}

impl RegAddr {
    /// Byte offset of this register on the bus.
    pub open spec fn spec_address(self) -> u8 {
        match self {
            RegAddr::Seconds => 0x00,
            RegAddr::Minutes => 0x01,
            RegAddr::Hours => 0x02,
            RegAddr::Day => 0x03,
            RegAddr::Date => 0x04,
            RegAddr::Month => 0x05,
            RegAddr::Year => 0x06,
            RegAddr::Alarm1Seconds => 0x07,
            RegAddr::Alarm1Minutes => 0x08,
            RegAddr::Alarm1Hours => 0x09,
            RegAddr::Alarm1DayDate => 0x0A,
            RegAddr::Alarm2Minutes => 0x0B,
            RegAddr::Alarm2Hours => 0x0C,
            RegAddr::Alarm2DayDate => 0x0D,
            RegAddr::Control => 0x0E,
            RegAddr::ControlStatus => 0x0F,
            RegAddr::AgingOffset => 0x10,
            RegAddr::MSBTemp => 0x11,
            RegAddr::LSBTemp => 0x12,
        }
    }

    /// Byte offset of this register on the bus.
    #[verifier::when_used_as_spec(spec_address)]
    pub fn address(self) -> (r: u8)
        ensures
            r == self.spec_address(),
    {
        match self {
            RegAddr::Seconds => 0x00,
            RegAddr::Minutes => 0x01,
            RegAddr::Hours => 0x02,
            RegAddr::Day => 0x03,
            RegAddr::Date => 0x04,
            RegAddr::Month => 0x05,
            RegAddr::Year => 0x06,
            RegAddr::Alarm1Seconds => 0x07,
            RegAddr::Alarm1Minutes => 0x08,
            RegAddr::Alarm1Hours => 0x09,
            RegAddr::Alarm1DayDate => 0x0A,
            RegAddr::Alarm2Minutes => 0x0B,
            RegAddr::Alarm2Hours => 0x0C,
            RegAddr::Alarm2DayDate => 0x0D,
            RegAddr::Control => 0x0E,
            RegAddr::ControlStatus => 0x0F,
            RegAddr::AgingOffset => 0x10,
            RegAddr::MSBTemp => 0x11,
            RegAddr::LSBTemp => 0x12,
        }
    }
}

/// Time representation format for the DS3231.
#[derive(Clone, Copy, Debug, PartialEq, Eq, Structural)]
pub enum TimeRepresentation {
    /// 24-hour format (0-23)
    TwentyFourHour,
    /// 12-hour format (1-12 + AM/PM)
    TwelveHour,
}

impl TimeRepresentation {
    /// The raw register bits of this value.
    pub open spec fn spec_bits(self) -> u8 {
        match self {
            TimeRepresentation::TwentyFourHour => 0,
            TimeRepresentation::TwelveHour => 1,
        }
    }

    /// The value encoded by the raw register bits, reading any
    /// out-of-range byte as the highest-bits variant.
    pub open spec fn spec_from_bits(v: u8) -> TimeRepresentation {
        if v == 0 {
            TimeRepresentation::TwentyFourHour
        } else {
            TimeRepresentation::TwelveHour
        }
    }
}

impl From<u8> for TimeRepresentation {
    /// Creates a `TimeRepresentation` from a raw register value.
    fn from(v: u8) -> (r: Self) {
        if v == 0 {
            TimeRepresentation::TwentyFourHour
        } else {
            TimeRepresentation::TwelveHour
        }
    }
}

impl vstd::std_specs::convert::FromSpecImpl<u8> for TimeRepresentation {
    open spec fn obeys_from_spec() -> bool {
        true
    }

    open spec fn from_spec(v: u8) -> Self {
        TimeRepresentation::spec_from_bits(v)
    }
}

impl From<TimeRepresentation> for u8 {
    /// Converts a `TimeRepresentation` to its raw register value.
    fn from(v: TimeRepresentation) -> (r: Self) {
        match v {
            TimeRepresentation::TwentyFourHour => 0,
            TimeRepresentation::TwelveHour => 1,
        }
    }
}

impl vstd::std_specs::convert::FromSpecImpl<TimeRepresentation> for u8 {
    open spec fn obeys_from_spec() -> bool {
        true
    }

    open spec fn from_spec(v: TimeRepresentation) -> Self {
        v.spec_bits()
    }
}

/// Oscillator control for the DS3231.
#[derive(Clone, Copy, Debug, PartialEq, Eq, Structural)]
pub enum Ocillator {
    /// Oscillator is enabled
    Enabled,
    /// Oscillator is disabled
    Disabled,
}

impl Ocillator {
    /// The raw register bits of this value.
    pub open spec fn spec_bits(self) -> u8 {
        match self {
            Ocillator::Enabled => 0,
            Ocillator::Disabled => 1,
        }
    }

    /// The value encoded by the raw register bits, reading any
    /// out-of-range byte as the highest-bits variant.
    pub open spec fn spec_from_bits(v: u8) -> Ocillator {
        if v == 0 {
            Ocillator::Enabled
        } else {
            Ocillator::Disabled
        }
    }
}

impl From<u8> for Ocillator {
    /// Creates a `Ocillator` from a raw register value.
    fn from(v: u8) -> (r: Self) {
        if v == 0 {
            Ocillator::Enabled
        } else {
            Ocillator::Disabled
        }
    }
}

impl vstd::std_specs::convert::FromSpecImpl<u8> for Ocillator {
    open spec fn obeys_from_spec() -> bool {
        true
    }

    open spec fn from_spec(v: u8) -> Self {
        Ocillator::spec_from_bits(v)
    }
}

impl From<Ocillator> for u8 {
    /// Converts a `Ocillator` to its raw register value.
    fn from(v: Ocillator) -> (r: Self) {
        match v {
            Ocillator::Enabled => 0,
            Ocillator::Disabled => 1,
        }
    }
}

impl vstd::std_specs::convert::FromSpecImpl<Ocillator> for u8 {
    open spec fn obeys_from_spec() -> bool {
        true
    }

    open spec fn from_spec(v: Ocillator) -> Self {
        v.spec_bits()
    }
}

/// Interrupt control mode for the DS3231.
#[derive(Clone, Copy, Debug, PartialEq, Eq, Structural)]
pub enum InterruptControl {
    /// Output square wave on INT/SQW pin
    SquareWave,
    /// Output interrupt signal on INT/SQW pin
    Interrupt,
}

impl InterruptControl {
    /// The raw register bits of this value.
    pub open spec fn spec_bits(self) -> u8 {
        match self {
            InterruptControl::SquareWave => 0,
            InterruptControl::Interrupt => 1,
        }
    }

    /// The value encoded by the raw register bits, reading any
    /// out-of-range byte as the highest-bits variant.
    pub open spec fn spec_from_bits(v: u8) -> InterruptControl {
        if v == 0 {
            InterruptControl::SquareWave
        } else {
            InterruptControl::Interrupt
        }
    }
}

impl From<u8> for InterruptControl {
    /// Creates a `InterruptControl` from a raw register value.
    fn from(v: u8) -> (r: Self) {
        if v == 0 {
            InterruptControl::SquareWave
        } else {
            InterruptControl::Interrupt
        }
    }
}

impl vstd::std_specs::convert::FromSpecImpl<u8> for InterruptControl {
    open spec fn obeys_from_spec() -> bool {
        true
    }

    open spec fn from_spec(v: u8) -> Self {
        InterruptControl::spec_from_bits(v)
    }
}

impl From<InterruptControl> for u8 {
    /// Converts a `InterruptControl` to its raw register value.
    fn from(v: InterruptControl) -> (r: Self) {
        match v {
            InterruptControl::SquareWave => 0,
            InterruptControl::Interrupt => 1,
        }
    }
}

impl vstd::std_specs::convert::FromSpecImpl<InterruptControl> for u8 {
    open spec fn obeys_from_spec() -> bool {
        true
    }

    open spec fn from_spec(v: InterruptControl) -> Self {
        v.spec_bits()
    }
}

/// Square wave output frequency options.
#[derive(Clone, Copy, Debug, PartialEq, Eq, Structural)]
pub enum SquareWaveFrequency {
    /// 1 Hz square wave output
    Hz1,
    /// 1.024 kHz square wave output
    Hz1024,
    /// 4.096 kHz square wave output
    Hz4096,
    /// 8.192 kHz square wave output
    Hz8192,
}

impl SquareWaveFrequency {
    /// The raw register bits of this value.
    pub open spec fn spec_bits(self) -> u8 {
        match self {
            SquareWaveFrequency::Hz1 => 0,
            SquareWaveFrequency::Hz1024 => 1,
            SquareWaveFrequency::Hz4096 => 2,
            SquareWaveFrequency::Hz8192 => 3,
        }
    }

    /// The value encoded by the raw register bits, reading any
    /// out-of-range byte as the highest-bits variant.
    pub open spec fn spec_from_bits(v: u8) -> SquareWaveFrequency {
        if v == 0 {
            SquareWaveFrequency::Hz1
        } else if v == 1 {
            SquareWaveFrequency::Hz1024
        } else if v == 2 {
            SquareWaveFrequency::Hz4096
        } else {
            SquareWaveFrequency::Hz8192
        }
    }
}

impl From<u8> for SquareWaveFrequency {
    /// Creates a `SquareWaveFrequency` from a raw register value.
    fn from(v: u8) -> (r: Self) {
        if v == 0 {
            SquareWaveFrequency::Hz1
        } else if v == 1 {
            SquareWaveFrequency::Hz1024
        } else if v == 2 {
            SquareWaveFrequency::Hz4096
        } else {
            SquareWaveFrequency::Hz8192
        }
    }
}

impl vstd::std_specs::convert::FromSpecImpl<u8> for SquareWaveFrequency {
    open spec fn obeys_from_spec() -> bool {
        true
    }

    open spec fn from_spec(v: u8) -> Self {
        SquareWaveFrequency::spec_from_bits(v)
    }
}

impl From<SquareWaveFrequency> for u8 {
    /// Converts a `SquareWaveFrequency` to its raw register value.
    fn from(v: SquareWaveFrequency) -> (r: Self) {
        match v {
            SquareWaveFrequency::Hz1 => 0,
            SquareWaveFrequency::Hz1024 => 1,
            SquareWaveFrequency::Hz4096 => 2,
            SquareWaveFrequency::Hz8192 => 3,
        }
    }
}

impl vstd::std_specs::convert::FromSpecImpl<SquareWaveFrequency> for u8 {
    open spec fn obeys_from_spec() -> bool {
        true
    }

    open spec fn from_spec(v: SquareWaveFrequency) -> Self {
        v.spec_bits()
    }
}

/// Day/Date select for alarm registers (DY/DT bit).
///
/// This controls whether the alarm day/date register matches against
/// the day of the week or the date of the month.
#[derive(Clone, Copy, Debug, PartialEq, Eq, Structural)]
pub enum DayDateSelect {
    /// Match against date of the month (1-31)
    Date,
    /// Match against day of the week (1-7, where 1=Sunday)
    Day,
}

impl DayDateSelect {
    /// The raw register bits of this value.
    pub open spec fn spec_bits(self) -> u8 {
        match self {
            DayDateSelect::Date => 0,
            DayDateSelect::Day => 1,
        }
    }

    /// The value encoded by the raw register bits, reading any
    /// out-of-range byte as the highest-bits variant.
    pub open spec fn spec_from_bits(v: u8) -> DayDateSelect {
        if v == 0 {
            DayDateSelect::Date
        } else {
            DayDateSelect::Day
        }
    }
}

impl From<u8> for DayDateSelect {
    /// Creates a `DayDateSelect` from a raw register value.
    fn from(v: u8) -> (r: Self) {
        if v == 0 {
            DayDateSelect::Date
        } else {
            DayDateSelect::Day
        }
    }
}

impl vstd::std_specs::convert::FromSpecImpl<u8> for DayDateSelect {
    open spec fn obeys_from_spec() -> bool {
        true
    }

    open spec fn from_spec(v: u8) -> Self {
        DayDateSelect::spec_from_bits(v)
    }
}

impl From<DayDateSelect> for u8 {
    /// Converts a `DayDateSelect` to its raw register value.
    fn from(v: DayDateSelect) -> (r: Self) {
        match v {
            DayDateSelect::Date => 0,
            DayDateSelect::Day => 1,
        }
    }
}

impl vstd::std_specs::convert::FromSpecImpl<DayDateSelect> for u8 {
    open spec fn obeys_from_spec() -> bool {
        true
    }

    open spec fn from_spec(v: DayDateSelect) -> Self {
        v.spec_bits()
    }
}

/// Seconds register (0-59) with BCD encoding.
#[derive(Clone, Copy, Debug, PartialEq, Eq, Structural)]
pub struct Seconds(pub u8);

impl Default for Seconds {
    /// Returns the all-zero register byte.
    fn default() -> (r: Self)
        ensures
            r.0 == 0,
    {
        Seconds(0)
    }
}

impl From<u8> for Seconds {
    /// Wraps a raw register byte.
    fn from(v: u8) -> (r: Self) {
        Seconds(v)
    }
}

impl vstd::std_specs::convert::FromSpecImpl<u8> for Seconds {
    open spec fn obeys_from_spec() -> bool {
        true
    }

    open spec fn from_spec(v: u8) -> Self {
        Seconds(v)
    }
}

impl From<Seconds> for u8 {
    /// Unwraps the raw register byte.
    fn from(v: Seconds) -> (r: Self) {
        v.0
    }
}

impl vstd::std_specs::convert::FromSpecImpl<Seconds> for u8 {
    open spec fn obeys_from_spec() -> bool {
        true
    }

    open spec fn from_spec(v: Seconds) -> Self {
        v.0
    }
}

impl Seconds {
    /// Tens place of seconds (0-5) (bits 6:4).
    pub open spec fn spec_ten_seconds(&self) -> u8 {
        ((self.0 / 16) % 8) as u8
    }

    /// Tens place of seconds (0-5)
    #[verifier::when_used_as_spec(spec_ten_seconds)]
    pub fn ten_seconds(&self) -> (r: u8)
        ensures
            r == self.spec_ten_seconds(),
    {
        (self.0 / 16) % 8
    }

    /// Sets bits 6:4 to `v` modulo 8, leaving the other bits unchanged.
    pub fn set_ten_seconds(&mut self, v: u8)
        ensures
            final(self).0 == old(self).0 / 128 * 128 + (v % 8) * 16 + old(self).0 % 16,
    {
        self.0 = self.0 / 128 * 128 + (v % 8) * 16 + self.0 % 16;
    }

    /// Ones place of seconds (0-9) (bits 3:0).
    pub open spec fn spec_seconds(&self) -> u8 {
        (self.0 % 16) as u8
    }

    /// Ones place of seconds (0-9)
    #[verifier::when_used_as_spec(spec_seconds)]
    pub fn seconds(&self) -> (r: u8)
        ensures
            r == self.spec_seconds(),
    {
        self.0 % 16
    }

    /// Sets bits 3:0 to `v` modulo 16, leaving the other bits unchanged.
    pub fn set_seconds(&mut self, v: u8)
        ensures
            final(self).0 == old(self).0 / 16 * 16 + (v % 16),
    {
        self.0 = self.0 / 16 * 16 + (v % 16);
    }
}

/// Minutes register (0-59) with BCD encoding.
#[derive(Clone, Copy, Debug, PartialEq, Eq, Structural)]
pub struct Minutes(pub u8);

impl Default for Minutes {
    /// Returns the all-zero register byte.
    fn default() -> (r: Self)
        ensures
            r.0 == 0,
    {
        Minutes(0)
    }
}

impl From<u8> for Minutes {
    /// Wraps a raw register byte.
    fn from(v: u8) -> (r: Self) {
        Minutes(v)
    }
}

impl vstd::std_specs::convert::FromSpecImpl<u8> for Minutes {
    open spec fn obeys_from_spec() -> bool {
        true
    }

    open spec fn from_spec(v: u8) -> Self {
        Minutes(v)
    }
}

impl From<Minutes> for u8 {
    /// Unwraps the raw register byte.
    fn from(v: Minutes) -> (r: Self) {
        v.0
    }
}

impl vstd::std_specs::convert::FromSpecImpl<Minutes> for u8 {
    open spec fn obeys_from_spec() -> bool {
        true
    }

    open spec fn from_spec(v: Minutes) -> Self {
        v.0
    }
}

impl Minutes {
    /// Tens place of minutes (0-5) (bits 6:4).
    pub open spec fn spec_ten_minutes(&self) -> u8 {
        ((self.0 / 16) % 8) as u8
    }

    /// Tens place of minutes (0-5)
    #[verifier::when_used_as_spec(spec_ten_minutes)]
    pub fn ten_minutes(&self) -> (r: u8)
        ensures
            r == self.spec_ten_minutes(),
    {
        (self.0 / 16) % 8
    }

    /// Sets bits 6:4 to `v` modulo 8, leaving the other bits unchanged.
    pub fn set_ten_minutes(&mut self, v: u8)
        ensures
            final(self).0 == old(self).0 / 128 * 128 + (v % 8) * 16 + old(self).0 % 16,
    {
        self.0 = self.0 / 128 * 128 + (v % 8) * 16 + self.0 % 16;
    }

    /// Ones place of minutes (0-9) (bits 3:0).
    pub open spec fn spec_minutes(&self) -> u8 {
        (self.0 % 16) as u8
    }

    /// Ones place of minutes (0-9)
    #[verifier::when_used_as_spec(spec_minutes)]
    pub fn minutes(&self) -> (r: u8)
        ensures
            r == self.spec_minutes(),
    {
        self.0 % 16
    }

    /// Sets bits 3:0 to `v` modulo 16, leaving the other bits unchanged.
    pub fn set_minutes(&mut self, v: u8)
        ensures
            final(self).0 == old(self).0 / 16 * 16 + (v % 16),
    {
        self.0 = self.0 / 16 * 16 + (v % 16);
    }
}

/// Hours register with format selection and BCD encoding.
#[derive(Clone, Copy, Debug, PartialEq, Eq, Structural)]
pub struct Hours(pub u8);

impl Default for Hours {
    /// Returns the all-zero register byte.
    fn default() -> (r: Self)
        ensures
            r.0 == 0,
    {
        Hours(0)
    }
}

impl From<u8> for Hours {
    /// Wraps a raw register byte.
    fn from(v: u8) -> (r: Self) {
        Hours(v)
    }
}

impl vstd::std_specs::convert::FromSpecImpl<u8> for Hours {
    open spec fn obeys_from_spec() -> bool {
        true
    }

    open spec fn from_spec(v: u8) -> Self {
        Hours(v)
    }
}

impl From<Hours> for u8 {
    /// Unwraps the raw register byte.
    fn from(v: Hours) -> (r: Self) {
        v.0
    }
}

impl vstd::std_specs::convert::FromSpecImpl<Hours> for u8 {
    open spec fn obeys_from_spec() -> bool {
        true
    }

    open spec fn from_spec(v: Hours) -> Self {
        v.0
    }
}

impl Hours {
    /// Time representation format (12/24 hour) (bits 6:6).
    pub open spec fn spec_time_representation(&self) -> TimeRepresentation {
        TimeRepresentation::spec_from_bits(((self.0 / 64) % 2) as u8)
    }

    /// Time representation format (12/24 hour)
    #[verifier::when_used_as_spec(spec_time_representation)]
    pub fn time_representation(&self) -> (r: TimeRepresentation)
        ensures
            r == self.spec_time_representation(),
    {
        TimeRepresentation::from((self.0 / 64) % 2)
    }

    /// Sets bits 6:6 to the encoding of `v`, leaving the other bits unchanged.
    pub fn set_time_representation(&mut self, v: TimeRepresentation)
        ensures
            final(self).0 == old(self).0 / 128 * 128 + v.spec_bits() * 64 + old(self).0 % 64,
    {
        let b: u8 = u8::from(v);
        self.0 = self.0 / 128 * 128 + b * 64 + self.0 % 64;
    }

    /// PM flag (12-hour) or 20-hour bit (24-hour) (bits 5:5).
    pub open spec fn spec_pm_or_twenty_hours(&self) -> u8 {
        ((self.0 / 32) % 2) as u8
    }

    /// PM flag (12-hour) or 20-hour bit (24-hour)
    #[verifier::when_used_as_spec(spec_pm_or_twenty_hours)]
    pub fn pm_or_twenty_hours(&self) -> (r: u8)
        ensures
            r == self.spec_pm_or_twenty_hours(),
    {
        (self.0 / 32) % 2
    }

    /// Sets bits 5:5 to `v` modulo 2, leaving the other bits unchanged.
    pub fn set_pm_or_twenty_hours(&mut self, v: u8)
        ensures
            final(self).0 == old(self).0 / 64 * 64 + (v % 2) * 32 + old(self).0 % 32,
    {
        self.0 = self.0 / 64 * 64 + (v % 2) * 32 + self.0 % 32;
    }

    /// Tens place of hours (bits 4:4).
    pub open spec fn spec_ten_hours(&self) -> u8 {
        ((self.0 / 16) % 2) as u8
    }

    /// Tens place of hours
    #[verifier::when_used_as_spec(spec_ten_hours)]
    pub fn ten_hours(&self) -> (r: u8)
        ensures
            r == self.spec_ten_hours(),
    {
        (self.0 / 16) % 2
    }

    /// Sets bits 4:4 to `v` modulo 2, leaving the other bits unchanged.
    pub fn set_ten_hours(&mut self, v: u8)
        ensures
            final(self).0 == old(self).0 / 32 * 32 + (v % 2) * 16 + old(self).0 % 16,
    {
        self.0 = self.0 / 32 * 32 + (v % 2) * 16 + self.0 % 16;
    }

    /// Ones place of hours (bits 3:0).
    pub open spec fn spec_hours(&self) -> u8 {
        (self.0 % 16) as u8
    }

    /// Ones place of hours
    #[verifier::when_used_as_spec(spec_hours)]
    pub fn hours(&self) -> (r: u8)
        ensures
            r == self.spec_hours(),
    {
        self.0 % 16
    }

    /// Sets bits 3:0 to `v` modulo 16, leaving the other bits unchanged.
    pub fn set_hours(&mut self, v: u8)
        ensures
            final(self).0 == old(self).0 / 16 * 16 + (v % 16),
    {
        self.0 = self.0 / 16 * 16 + (v % 16);
    }
}

/// Day of week register (1-7).
#[derive(Clone, Copy, Debug, PartialEq, Eq, Structural)]
pub struct Day(pub u8);

impl Default for Day {
    /// Returns the all-zero register byte.
    fn default() -> (r: Self)
        ensures
            r.0 == 0,
    {
        Day(0)
    }
}

impl From<u8> for Day {
    /// Wraps a raw register byte.
    fn from(v: u8) -> (r: Self) {
        Day(v)
    }
}

impl vstd::std_specs::convert::FromSpecImpl<u8> for Day {
    open spec fn obeys_from_spec() -> bool {
        true
    }

    open spec fn from_spec(v: u8) -> Self {
        Day(v)
    }
}

impl From<Day> for u8 {
    /// Unwraps the raw register byte.
    fn from(v: Day) -> (r: Self) {
        v.0
    }
}

impl vstd::std_specs::convert::FromSpecImpl<Day> for u8 {
    open spec fn obeys_from_spec() -> bool {
        true
    }

    open spec fn from_spec(v: Day) -> Self {
        v.0
    }
}

impl Day {
    /// Day of week (1-7) (bits 2:0).
    pub open spec fn spec_day(&self) -> u8 {
        (self.0 % 8) as u8
    }

    /// Day of week (1-7)
    #[verifier::when_used_as_spec(spec_day)]
    pub fn day(&self) -> (r: u8)
        ensures
            r == self.spec_day(),
    {
        self.0 % 8
    }

    /// Sets bits 2:0 to `v` modulo 8, leaving the other bits unchanged.
    pub fn set_day(&mut self, v: u8)
        ensures
            final(self).0 == old(self).0 / 8 * 8 + (v % 8),
    {
        self.0 = self.0 / 8 * 8 + (v % 8);
    }
}

/// Date register (1-31) with BCD encoding.
#[derive(Clone, Copy, Debug, PartialEq, Eq, Structural)]
pub struct Date(pub u8);

impl Default for Date {
    /// Returns the all-zero register byte.
    fn default() -> (r: Self)
        ensures
            r.0 == 0,
    {
        Date(0)
    }
}

impl From<u8> for Date {
    /// Wraps a raw register byte.
    fn from(v: u8) -> (r: Self) {
        Date(v)
    }
}

impl vstd::std_specs::convert::FromSpecImpl<u8> for Date {
    open spec fn obeys_from_spec() -> bool {
        true
    }

    open spec fn from_spec(v: u8) -> Self {
        Date(v)
    }
}

impl From<Date> for u8 {
    /// Unwraps the raw register byte.
    fn from(v: Date) -> (r: Self) {
        v.0
    }
}

impl vstd::std_specs::convert::FromSpecImpl<Date> for u8 {
    open spec fn obeys_from_spec() -> bool {
        true
    }

    open spec fn from_spec(v: Date) -> Self {
        v.0
    }
}

impl Date {
    /// Tens place of date (0-3) (bits 5:4).
    pub open spec fn spec_ten_date(&self) -> u8 {
        ((self.0 / 16) % 4) as u8
    }

    /// Tens place of date (0-3)
    #[verifier::when_used_as_spec(spec_ten_date)]
    pub fn ten_date(&self) -> (r: u8)
        ensures
            r == self.spec_ten_date(),
    {
        (self.0 / 16) % 4
    }

    /// Sets bits 5:4 to `v` modulo 4, leaving the other bits unchanged.
    pub fn set_ten_date(&mut self, v: u8)
        ensures
            final(self).0 == old(self).0 / 64 * 64 + (v % 4) * 16 + old(self).0 % 16,
    {
        self.0 = self.0 / 64 * 64 + (v % 4) * 16 + self.0 % 16;
    }

    /// Ones place of date (0-9) (bits 3:0).
    pub open spec fn spec_date(&self) -> u8 {
        (self.0 % 16) as u8
    }

    /// Ones place of date (0-9)
    #[verifier::when_used_as_spec(spec_date)]
    pub fn date(&self) -> (r: u8)
        ensures
            r == self.spec_date(),
    {
        self.0 % 16
    }

    /// Sets bits 3:0 to `v` modulo 16, leaving the other bits unchanged.
    pub fn set_date(&mut self, v: u8)
        ensures
            final(self).0 == old(self).0 / 16 * 16 + (v % 16),
    {
        self.0 = self.0 / 16 * 16 + (v % 16);
    }
}

/// Month register (1-12) with century flag and BCD encoding.
#[derive(Clone, Copy, Debug, PartialEq, Eq, Structural)]
pub struct Month(pub u8);

impl Default for Month {
    /// Returns the all-zero register byte.
    fn default() -> (r: Self)
        ensures
            r.0 == 0,
    {
        Month(0)
    }
}

impl From<u8> for Month {
    /// Wraps a raw register byte.
    fn from(v: u8) -> (r: Self) {
        Month(v)
    }
}

impl vstd::std_specs::convert::FromSpecImpl<u8> for Month {
    open spec fn obeys_from_spec() -> bool {
        true
    }

    open spec fn from_spec(v: u8) -> Self {
        Month(v)
    }
}

impl From<Month> for u8 {
    /// Unwraps the raw register byte.
    fn from(v: Month) -> (r: Self) {
        v.0
    }
}

impl vstd::std_specs::convert::FromSpecImpl<Month> for u8 {
    open spec fn obeys_from_spec() -> bool {
        true
    }

    open spec fn from_spec(v: Month) -> Self {
        v.0
    }
}

impl Month {
    /// Century flag (1 = year 2100+) (bit 7).
    pub open spec fn spec_century(&self) -> bool {
        self.0 / 128 == 1
    }

    /// Century flag (1 = year 2100+)
    #[verifier::when_used_as_spec(spec_century)]
    pub fn century(&self) -> (r: bool)
        ensures
            r == self.spec_century(),
    {
        self.0 / 128 == 1
    }

    /// Sets bit 7 to `v`, leaving the other bits unchanged.
    pub fn set_century(&mut self, v: bool)
        ensures
            final(self).0 == (if v { 128int } else { 0int }) + old(self).0 % 128,
    {
        self.0 = (if v { 128u8 } else { 0u8 }) + self.0 % 128;
    }

    /// Tens place of month (0-1) (bits 4:4).
    pub open spec fn spec_ten_month(&self) -> u8 {
        ((self.0 / 16) % 2) as u8
    }

    /// Tens place of month (0-1)
    #[verifier::when_used_as_spec(spec_ten_month)]
    pub fn ten_month(&self) -> (r: u8)
        ensures
            r == self.spec_ten_month(),
    {
        (self.0 / 16) % 2
    }

    /// Sets bits 4:4 to `v` modulo 2, leaving the other bits unchanged.
    pub fn set_ten_month(&mut self, v: u8)
        ensures
            final(self).0 == old(self).0 / 32 * 32 + (v % 2) * 16 + old(self).0 % 16,
    {
        self.0 = self.0 / 32 * 32 + (v % 2) * 16 + self.0 % 16;
    }

    /// Ones place of month (0-9) (bits 3:0).
    pub open spec fn spec_month(&self) -> u8 {
        (self.0 % 16) as u8
    }

    /// Ones place of month (0-9)
    #[verifier::when_used_as_spec(spec_month)]
    pub fn month(&self) -> (r: u8)
        ensures
            r == self.spec_month(),
    {
        self.0 % 16
    }

    /// Sets bits 3:0 to `v` modulo 16, leaving the other bits unchanged.
    pub fn set_month(&mut self, v: u8)
        ensures
            final(self).0 == old(self).0 / 16 * 16 + (v % 16),
    {
        self.0 = self.0 / 16 * 16 + (v % 16);
    }
}

/// Year register (0-99) with BCD encoding.
#[derive(Clone, Copy, Debug, PartialEq, Eq, Structural)]
pub struct Year(pub u8);

impl Default for Year {
    /// Returns the all-zero register byte.
    fn default() -> (r: Self)
        ensures
            r.0 == 0,
    {
        Year(0)
    }
}

impl From<u8> for Year {
    /// Wraps a raw register byte.
    fn from(v: u8) -> (r: Self) {
        Year(v)
    }
}

impl vstd::std_specs::convert::FromSpecImpl<u8> for Year {
    open spec fn obeys_from_spec() -> bool {
        true
    }

    open spec fn from_spec(v: u8) -> Self {
        Year(v)
    }
}

impl From<Year> for u8 {
    /// Unwraps the raw register byte.
    fn from(v: Year) -> (r: Self) {
        v.0
    }
}

impl vstd::std_specs::convert::FromSpecImpl<Year> for u8 {
    open spec fn obeys_from_spec() -> bool {
        true
    }

    open spec fn from_spec(v: Year) -> Self {
        v.0
    }
}

impl Year {
    /// Tens place of year (0-9) (bits 7:4).
    pub open spec fn spec_ten_year(&self) -> u8 {
        (self.0 / 16) as u8
    }

    /// Tens place of year (0-9)
    #[verifier::when_used_as_spec(spec_ten_year)]
    pub fn ten_year(&self) -> (r: u8)
        ensures
            r == self.spec_ten_year(),
    {
        self.0 / 16
    }

    /// Sets bits 7:4 to `v` modulo 16, leaving the other bits unchanged.
    pub fn set_ten_year(&mut self, v: u8)
        ensures
            final(self).0 == (v % 16) * 16 + old(self).0 % 16,
    {
        self.0 = (v % 16) * 16 + self.0 % 16;
    }

    /// Ones place of year (0-9) (bits 3:0).
    pub open spec fn spec_year(&self) -> u8 {
        (self.0 % 16) as u8
    }

    /// Ones place of year (0-9)
    #[verifier::when_used_as_spec(spec_year)]
    pub fn year(&self) -> (r: u8)
        ensures
            r == self.spec_year(),
    {
        self.0 % 16
    }

    /// Sets bits 3:0 to `v` modulo 16, leaving the other bits unchanged.
    pub fn set_year(&mut self, v: u8)
        ensures
            final(self).0 == old(self).0 / 16 * 16 + (v % 16),
    {
        self.0 = self.0 / 16 * 16 + (v % 16);
    }
}

/// Control register for device configuration.
#[derive(Clone, Copy, Debug, PartialEq, Eq, Structural)]
pub struct Control(pub u8);

impl Default for Control {
    /// Returns the all-zero register byte.
    fn default() -> (r: Self)
        ensures
            r.0 == 0,
    {
        Control(0)
    }
}

impl From<u8> for Control {
    /// Wraps a raw register byte.
    fn from(v: u8) -> (r: Self) {
        Control(v)
    }
}

impl vstd::std_specs::convert::FromSpecImpl<u8> for Control {
    open spec fn obeys_from_spec() -> bool {
        true
    }

    open spec fn from_spec(v: u8) -> Self {
        Control(v)
    }
}

impl From<Control> for u8 {
    /// Unwraps the raw register byte.
    fn from(v: Control) -> (r: Self) {
        v.0
    }
}

impl vstd::std_specs::convert::FromSpecImpl<Control> for u8 {
    open spec fn obeys_from_spec() -> bool {
        true
    }

    open spec fn from_spec(v: Control) -> Self {
        v.0
    }
}

impl Control {
    /// Oscillator enable/disable control (bits 7:7).
    pub open spec fn spec_oscillator_enable(&self) -> Ocillator {
        Ocillator::spec_from_bits((self.0 / 128) as u8)
    }

    /// Oscillator enable/disable control
    #[verifier::when_used_as_spec(spec_oscillator_enable)]
    pub fn oscillator_enable(&self) -> (r: Ocillator)
        ensures
            r == self.spec_oscillator_enable(),
    {
        Ocillator::from(self.0 / 128)
    }

    /// Sets bits 7:7 to the encoding of `v`, leaving the other bits unchanged.
    pub fn set_oscillator_enable(&mut self, v: Ocillator)
        ensures
            final(self).0 == v.spec_bits() * 128 + old(self).0 % 128,
    {
        let b: u8 = u8::from(v);
        self.0 = b * 128 + self.0 % 128;
    }

    /// Enable square wave output on battery power (bit 6).
    pub open spec fn spec_battery_backed_square_wave(&self) -> bool {
        (self.0 / 64) % 2 == 1
    }

    /// Enable square wave output on battery power
    #[verifier::when_used_as_spec(spec_battery_backed_square_wave)]
    pub fn battery_backed_square_wave(&self) -> (r: bool)
        ensures
            r == self.spec_battery_backed_square_wave(),
    {
        (self.0 / 64) % 2 == 1
    }

    /// Sets bit 6 to `v`, leaving the other bits unchanged.
    pub fn set_battery_backed_square_wave(&mut self, v: bool)
        ensures
            final(self).0 == old(self).0 / 128 * 128 + (if v { 64int } else { 0int }) + old(self).0 % 64,
    {
        self.0 = self.0 / 128 * 128 + (if v { 64u8 } else { 0u8 }) + self.0 % 64;
    }

    /// Force temperature conversion (bit 5).
    pub open spec fn spec_convert_temperature(&self) -> bool {
        (self.0 / 32) % 2 == 1
    }

    /// Force temperature conversion
    #[verifier::when_used_as_spec(spec_convert_temperature)]
    pub fn convert_temperature(&self) -> (r: bool)
        ensures
            r == self.spec_convert_temperature(),
    {
        (self.0 / 32) % 2 == 1
    }

    /// Sets bit 5 to `v`, leaving the other bits unchanged.
    pub fn set_convert_temperature(&mut self, v: bool)
        ensures
            final(self).0 == old(self).0 / 64 * 64 + (if v { 32int } else { 0int }) + old(self).0 % 32,
    {
        self.0 = self.0 / 64 * 64 + (if v { 32u8 } else { 0u8 }) + self.0 % 32;
    }

    /// Square wave output frequency selection (bits 4:3).
    pub open spec fn spec_square_wave_frequency(&self) -> SquareWaveFrequency {
        SquareWaveFrequency::spec_from_bits(((self.0 / 8) % 4) as u8)
    }

    /// Square wave output frequency selection
    #[verifier::when_used_as_spec(spec_square_wave_frequency)]
    pub fn square_wave_frequency(&self) -> (r: SquareWaveFrequency)
        ensures
            r == self.spec_square_wave_frequency(),
    {
        SquareWaveFrequency::from((self.0 / 8) % 4)
    }

    /// Sets bits 4:3 to the encoding of `v`, leaving the other bits unchanged.
    pub fn set_square_wave_frequency(&mut self, v: SquareWaveFrequency)
        ensures
            final(self).0 == old(self).0 / 32 * 32 + v.spec_bits() * 8 + old(self).0 % 8,
    {
        let b: u8 = u8::from(v);
        self.0 = self.0 / 32 * 32 + b * 8 + self.0 % 8;
    }

    /// INT/SQW pin function control (bits 2:2).
    pub open spec fn spec_interrupt_control(&self) -> InterruptControl {
        InterruptControl::spec_from_bits(((self.0 / 4) % 2) as u8)
    }

    /// INT/SQW pin function control
    #[verifier::when_used_as_spec(spec_interrupt_control)]
    pub fn interrupt_control(&self) -> (r: InterruptControl)
        ensures
            r == self.spec_interrupt_control(),
    {
        InterruptControl::from((self.0 / 4) % 2)
    }

    /// Sets bits 2:2 to the encoding of `v`, leaving the other bits unchanged.
    pub fn set_interrupt_control(&mut self, v: InterruptControl)
        ensures
            final(self).0 == old(self).0 / 8 * 8 + v.spec_bits() * 4 + old(self).0 % 4,
    {
        let b: u8 = u8::from(v);
        self.0 = self.0 / 8 * 8 + b * 4 + self.0 % 4;
    }

    /// Enable alarm 2 interrupt (bit 1).
    pub open spec fn spec_alarm2_interrupt_enable(&self) -> bool {
        (self.0 / 2) % 2 == 1
    }

    /// Enable alarm 2 interrupt
    #[verifier::when_used_as_spec(spec_alarm2_interrupt_enable)]
    pub fn alarm2_interrupt_enable(&self) -> (r: bool)
        ensures
            r == self.spec_alarm2_interrupt_enable(),
    {
        (self.0 / 2) % 2 == 1
    }

    /// Sets bit 1 to `v`, leaving the other bits unchanged.
    pub fn set_alarm2_interrupt_enable(&mut self, v: bool)
        ensures
            final(self).0 == old(self).0 / 4 * 4 + (if v { 2int } else { 0int }) + old(self).0 % 2,
    {
        self.0 = self.0 / 4 * 4 + (if v { 2u8 } else { 0u8 }) + self.0 % 2;
    }

    /// Enable alarm 1 interrupt (bit 0).
    pub open spec fn spec_alarm1_interrupt_enable(&self) -> bool {
        self.0 % 2 == 1
    }

    /// Enable alarm 1 interrupt
    #[verifier::when_used_as_spec(spec_alarm1_interrupt_enable)]
    pub fn alarm1_interrupt_enable(&self) -> (r: bool)
        ensures
            r == self.spec_alarm1_interrupt_enable(),
    {
        self.0 % 2 == 1
    }

    /// Sets bit 0 to `v`, leaving the other bits unchanged.
    pub fn set_alarm1_interrupt_enable(&mut self, v: bool)
        ensures
            final(self).0 == old(self).0 / 2 * 2 + (if v { 1int } else { 0int }),
    {
        self.0 = self.0 / 2 * 2 + (if v { 1u8 } else { 0u8 });
    }
}

/// Status register for device state and flags.
#[derive(Clone, Copy, Debug, PartialEq, Eq, Structural)]
pub struct Status(pub u8);

impl Default for Status {
    /// Returns the all-zero register byte.
    fn default() -> (r: Self)
        ensures
            r.0 == 0,
    {
        Status(0)
    }
}

impl From<u8> for Status {
    /// Wraps a raw register byte.
    fn from(v: u8) -> (r: Self) {
        Status(v)
    }
}

impl vstd::std_specs::convert::FromSpecImpl<u8> for Status {
    open spec fn obeys_from_spec() -> bool {
        true
    }

    open spec fn from_spec(v: u8) -> Self {
        Status(v)
    }
}

impl From<Status> for u8 {
    /// Unwraps the raw register byte.
    fn from(v: Status) -> (r: Self) {
        v.0
    }
}

impl vstd::std_specs::convert::FromSpecImpl<Status> for u8 {
    open spec fn obeys_from_spec() -> bool {
        true
    }

    open spec fn from_spec(v: Status) -> Self {
        v.0
    }
}

impl Status {
    /// Oscillator stop flag (bit 7).
    pub open spec fn spec_oscillator_stop_flag(&self) -> bool {
        self.0 / 128 == 1
    }

    /// Oscillator stop flag
    #[verifier::when_used_as_spec(spec_oscillator_stop_flag)]
    pub fn oscillator_stop_flag(&self) -> (r: bool)
        ensures
            r == self.spec_oscillator_stop_flag(),
    {
        self.0 / 128 == 1
    }

    /// Sets bit 7 to `v`, leaving the other bits unchanged.
    pub fn set_oscillator_stop_flag(&mut self, v: bool)
        ensures
            final(self).0 == (if v { 128int } else { 0int }) + old(self).0 % 128,
    {
        self.0 = (if v { 128u8 } else { 0u8 }) + self.0 % 128;
    }

    /// Enable 32kHz output (bit 3).
    pub open spec fn spec_enable_32khz_output(&self) -> bool {
        (self.0 / 8) % 2 == 1
    }

    /// Enable 32kHz output
    #[verifier::when_used_as_spec(spec_enable_32khz_output)]
    pub fn enable_32khz_output(&self) -> (r: bool)
        ensures
            r == self.spec_enable_32khz_output(),
    {
        (self.0 / 8) % 2 == 1
    }

    /// Sets bit 3 to `v`, leaving the other bits unchanged.
    pub fn set_enable_32khz_output(&mut self, v: bool)
        ensures
            final(self).0 == old(self).0 / 16 * 16 + (if v { 8int } else { 0int }) + old(self).0 % 8,
    {
        self.0 = self.0 / 16 * 16 + (if v { 8u8 } else { 0u8 }) + self.0 % 8;
    }

    /// Device busy flag (bit 2).
    pub open spec fn spec_busy(&self) -> bool {
        (self.0 / 4) % 2 == 1
    }

    /// Device busy flag
    #[verifier::when_used_as_spec(spec_busy)]
    pub fn busy(&self) -> (r: bool)
        ensures
            r == self.spec_busy(),
    {
        (self.0 / 4) % 2 == 1
    }

    /// Sets bit 2 to `v`, leaving the other bits unchanged.
    pub fn set_busy(&mut self, v: bool)
        ensures
            final(self).0 == old(self).0 / 8 * 8 + (if v { 4int } else { 0int }) + old(self).0 % 4,
    {
        self.0 = self.0 / 8 * 8 + (if v { 4u8 } else { 0u8 }) + self.0 % 4;
    }

    /// Alarm 2 triggered flag (bit 1).
    pub open spec fn spec_alarm2_flag(&self) -> bool {
        (self.0 / 2) % 2 == 1
    }

    /// Alarm 2 triggered flag
    #[verifier::when_used_as_spec(spec_alarm2_flag)]
    pub fn alarm2_flag(&self) -> (r: bool)
        ensures
            r == self.spec_alarm2_flag(),
    {
        (self.0 / 2) % 2 == 1
    }

    /// Sets bit 1 to `v`, leaving the other bits unchanged.
    pub fn set_alarm2_flag(&mut self, v: bool)
        ensures
            final(self).0 == old(self).0 / 4 * 4 + (if v { 2int } else { 0int }) + old(self).0 % 2,
    {
        self.0 = self.0 / 4 * 4 + (if v { 2u8 } else { 0u8 }) + self.0 % 2;
    }

    /// Alarm 1 triggered flag (bit 0).
    pub open spec fn spec_alarm1_flag(&self) -> bool {
        self.0 % 2 == 1
    }

    /// Alarm 1 triggered flag
    #[verifier::when_used_as_spec(spec_alarm1_flag)]
    pub fn alarm1_flag(&self) -> (r: bool)
        ensures
            r == self.spec_alarm1_flag(),
    {
        self.0 % 2 == 1
    }

    /// Sets bit 0 to `v`, leaving the other bits unchanged.
    pub fn set_alarm1_flag(&mut self, v: bool)
        ensures
            final(self).0 == old(self).0 / 2 * 2 + (if v { 1int } else { 0int }),
    {
        self.0 = self.0 / 2 * 2 + (if v { 1u8 } else { 0u8 });
    }
}

/// Aging offset register for oscillator adjustment.
#[derive(Clone, Copy, Debug, PartialEq, Eq, Structural)]
pub struct AgingOffset(pub u8);

impl Default for AgingOffset {
    /// Returns the all-zero register byte.
    fn default() -> (r: Self)
        ensures
            r.0 == 0,
    {
        AgingOffset(0)
    }
}

impl From<u8> for AgingOffset {
    /// Wraps a raw register byte.
    fn from(v: u8) -> (r: Self) {
        AgingOffset(v)
    }
}

impl vstd::std_specs::convert::FromSpecImpl<u8> for AgingOffset {
    open spec fn obeys_from_spec() -> bool {
        true
    }

    open spec fn from_spec(v: u8) -> Self {
        AgingOffset(v)
    }
}

impl From<AgingOffset> for u8 {
    /// Unwraps the raw register byte.
    fn from(v: AgingOffset) -> (r: Self) {
        v.0
    }
}

impl vstd::std_specs::convert::FromSpecImpl<AgingOffset> for u8 {
    open spec fn obeys_from_spec() -> bool {
        true
    }

    open spec fn from_spec(v: AgingOffset) -> Self {
        v.0
    }
}

impl AgingOffset {
    /// Aging offset value (-128 to +127), read from the byte as a two's-complement value.
    pub open spec fn spec_aging_offset(&self) -> i8 {
        self.0 as i8
    }

    /// Aging offset value (-128 to +127)
    #[verifier::when_used_as_spec(spec_aging_offset)]
    pub fn aging_offset(&self) -> (r: i8)
        ensures
            r == self.spec_aging_offset(),
    {
        self.0 as i8
    }

    /// Sets the whole byte to the two's-complement encoding of `v`.
    pub fn set_aging_offset(&mut self, v: i8)
        ensures
            final(self).0 == v as u8,
    {
        self.0 = v as u8;
    }
}

/// Temperature register (integer part).
#[derive(Clone, Copy, Debug, PartialEq, Eq, Structural)]
pub struct Temperature(pub u8);

impl Default for Temperature {
    /// Returns the all-zero register byte.
    fn default() -> (r: Self)
        ensures
            r.0 == 0,
    {
        Temperature(0)
    }
}

impl From<u8> for Temperature {
    /// Wraps a raw register byte.
    fn from(v: u8) -> (r: Self) {
        Temperature(v)
    }
}

impl vstd::std_specs::convert::FromSpecImpl<u8> for Temperature {
    open spec fn obeys_from_spec() -> bool {
        true
    }

    open spec fn from_spec(v: u8) -> Self {
        Temperature(v)
    }
}

impl From<Temperature> for u8 {
    /// Unwraps the raw register byte.
    fn from(v: Temperature) -> (r: Self) {
        v.0
    }
}

impl vstd::std_specs::convert::FromSpecImpl<Temperature> for u8 {
    open spec fn obeys_from_spec() -> bool {
        true
    }

    open spec fn from_spec(v: Temperature) -> Self {
        v.0
    }
}

impl Temperature {
    /// Temperature value (-128 to +127), read from the byte as a two's-complement value.
    pub open spec fn spec_temperature(&self) -> i8 {
        self.0 as i8
    }

    /// Temperature value (-128 to +127)
    #[verifier::when_used_as_spec(spec_temperature)]
    pub fn temperature(&self) -> (r: i8)
        ensures
            r == self.spec_temperature(),
    {
        self.0 as i8
    }

    /// Sets the whole byte to the two's-complement encoding of `v`.
    pub fn set_temperature(&mut self, v: i8)
        ensures
            final(self).0 == v as u8,
    {
        self.0 = v as u8;
    }
}

/// Temperature fraction register (decimal part).
#[derive(Clone, Copy, Debug, PartialEq, Eq, Structural)]
pub struct TemperatureFraction(pub u8);

impl Default for TemperatureFraction {
    /// Returns the all-zero register byte.
    fn default() -> (r: Self)
        ensures
            r.0 == 0,
    {
        TemperatureFraction(0)
    }
}

impl From<u8> for TemperatureFraction {
    /// Wraps a raw register byte.
    fn from(v: u8) -> (r: Self) {
        TemperatureFraction(v)
    }
}

impl vstd::std_specs::convert::FromSpecImpl<u8> for TemperatureFraction {
    open spec fn obeys_from_spec() -> bool {
        true
    }

    open spec fn from_spec(v: u8) -> Self {
        TemperatureFraction(v)
    }
}

impl From<TemperatureFraction> for u8 {
    /// Unwraps the raw register byte.
    fn from(v: TemperatureFraction) -> (r: Self) {
        v.0
    }
}

impl vstd::std_specs::convert::FromSpecImpl<TemperatureFraction> for u8 {
    open spec fn obeys_from_spec() -> bool {
        true
    }

    open spec fn from_spec(v: TemperatureFraction) -> Self {
        v.0
    }
}

impl TemperatureFraction {
    /// Temperature fraction in quarter-degree steps (bits 7:6).
    pub open spec fn spec_temperature_fraction(&self) -> u8 {
        (self.0 / 64) as u8
    }

    /// Temperature fraction in quarter-degree steps
    #[verifier::when_used_as_spec(spec_temperature_fraction)]
    pub fn temperature_fraction(&self) -> (r: u8)
        ensures
            r == self.spec_temperature_fraction(),
    {
        self.0 / 64
    }

    /// Sets bits 7:6 to `v` modulo 4, leaving the other bits unchanged.
    pub fn set_temperature_fraction(&mut self, v: u8)
        ensures
            final(self).0 == (v % 4) * 64 + old(self).0 % 64,
    {
        self.0 = (v % 4) * 64 + self.0 % 64;
    }
}

/// Alarm Seconds register with mask bit (only used by Alarm 1).
#[derive(Clone, Copy, Debug, PartialEq, Eq, Structural)]
pub struct AlarmSeconds(pub u8);

impl Default for AlarmSeconds {
    /// Returns the all-zero register byte.
    fn default() -> (r: Self)
        ensures
            r.0 == 0,
    {
        AlarmSeconds(0)
    }
}

impl From<u8> for AlarmSeconds {
    /// Wraps a raw register byte.
    fn from(v: u8) -> (r: Self) {
        AlarmSeconds(v)
    }
}

impl vstd::std_specs::convert::FromSpecImpl<u8> for AlarmSeconds {
    open spec fn obeys_from_spec() -> bool {
        true
    }

    open spec fn from_spec(v: u8) -> Self {
        AlarmSeconds(v)
    }
}

impl From<AlarmSeconds> for u8 {
    /// Unwraps the raw register byte.
    fn from(v: AlarmSeconds) -> (r: Self) {
        v.0
    }
}

impl vstd::std_specs::convert::FromSpecImpl<AlarmSeconds> for u8 {
    open spec fn obeys_from_spec() -> bool {
        true
    }

    open spec fn from_spec(v: AlarmSeconds) -> Self {
        v.0
    }
}

impl AlarmSeconds {
    /// Alarm mask bit 1 (A1M1) (bit 7).
    pub open spec fn spec_alarm_mask1(&self) -> bool {
        self.0 / 128 == 1
    }

    /// Alarm mask bit 1 (A1M1)
    #[verifier::when_used_as_spec(spec_alarm_mask1)]
    pub fn alarm_mask1(&self) -> (r: bool)
        ensures
            r == self.spec_alarm_mask1(),
    {
        self.0 / 128 == 1
    }

    /// Sets bit 7 to `v`, leaving the other bits unchanged.
    pub fn set_alarm_mask1(&mut self, v: bool)
        ensures
            final(self).0 == (if v { 128int } else { 0int }) + old(self).0 % 128,
    {
        self.0 = (if v { 128u8 } else { 0u8 }) + self.0 % 128;
    }

    /// Tens place of seconds (0-5) (bits 6:4).
    pub open spec fn spec_ten_seconds(&self) -> u8 {
        ((self.0 / 16) % 8) as u8
    }

    /// Tens place of seconds (0-5)
    #[verifier::when_used_as_spec(spec_ten_seconds)]
    pub fn ten_seconds(&self) -> (r: u8)
        ensures
            r == self.spec_ten_seconds(),
    {
        (self.0 / 16) % 8
    }

    /// Sets bits 6:4 to `v` modulo 8, leaving the other bits unchanged.
    pub fn set_ten_seconds(&mut self, v: u8)
        ensures
            final(self).0 == old(self).0 / 128 * 128 + (v % 8) * 16 + old(self).0 % 16,
    {
        self.0 = self.0 / 128 * 128 + (v % 8) * 16 + self.0 % 16;
    }

    /// Ones place of seconds (0-9) (bits 3:0).
    pub open spec fn spec_seconds(&self) -> u8 {
        (self.0 % 16) as u8
    }

    /// Ones place of seconds (0-9)
    #[verifier::when_used_as_spec(spec_seconds)]
    pub fn seconds(&self) -> (r: u8)
        ensures
            r == self.spec_seconds(),
    {
        self.0 % 16
    }

    /// Sets bits 3:0 to `v` modulo 16, leaving the other bits unchanged.
    pub fn set_seconds(&mut self, v: u8)
        ensures
            final(self).0 == old(self).0 / 16 * 16 + (v % 16),
    {
        self.0 = self.0 / 16 * 16 + (v % 16);
    }
}

/// Alarm Minutes register with mask bit (used by both Alarm 1 and Alarm 2).
#[derive(Clone, Copy, Debug, PartialEq, Eq, Structural)]
pub struct AlarmMinutes(pub u8);

impl Default for AlarmMinutes {
    /// Returns the all-zero register byte.
    fn default() -> (r: Self)
        ensures
            r.0 == 0,
    {
        AlarmMinutes(0)
    }
}

impl From<u8> for AlarmMinutes {
    /// Wraps a raw register byte.
    fn from(v: u8) -> (r: Self) {
        AlarmMinutes(v)
    }
}

impl vstd::std_specs::convert::FromSpecImpl<u8> for AlarmMinutes {
    open spec fn obeys_from_spec() -> bool {
        true
    }

    open spec fn from_spec(v: u8) -> Self {
        AlarmMinutes(v)
    }
}

impl From<AlarmMinutes> for u8 {
    /// Unwraps the raw register byte.
    fn from(v: AlarmMinutes) -> (r: Self) {
        v.0
    }
}

impl vstd::std_specs::convert::FromSpecImpl<AlarmMinutes> for u8 {
    open spec fn obeys_from_spec() -> bool {
        true
    }

    open spec fn from_spec(v: AlarmMinutes) -> Self {
        v.0
    }
}

impl AlarmMinutes {
    /// Alarm mask bit 2 (A1M2/A2M2) (bit 7).
    pub open spec fn spec_alarm_mask2(&self) -> bool {
        self.0 / 128 == 1
    }

    /// Alarm mask bit 2 (A1M2/A2M2)
    #[verifier::when_used_as_spec(spec_alarm_mask2)]
    pub fn alarm_mask2(&self) -> (r: bool)
        ensures
            r == self.spec_alarm_mask2(),
    {
        self.0 / 128 == 1
    }

    /// Sets bit 7 to `v`, leaving the other bits unchanged.
    pub fn set_alarm_mask2(&mut self, v: bool)
        ensures
            final(self).0 == (if v { 128int } else { 0int }) + old(self).0 % 128,
    {
        self.0 = (if v { 128u8 } else { 0u8 }) + self.0 % 128;
    }

    /// Tens place of minutes (0-5) (bits 6:4).
    pub open spec fn spec_ten_minutes(&self) -> u8 {
        ((self.0 / 16) % 8) as u8
    }

    /// Tens place of minutes (0-5)
    #[verifier::when_used_as_spec(spec_ten_minutes)]
    pub fn ten_minutes(&self) -> (r: u8)
        ensures
            r == self.spec_ten_minutes(),
    {
        (self.0 / 16) % 8
    }

    /// Sets bits 6:4 to `v` modulo 8, leaving the other bits unchanged.
    pub fn set_ten_minutes(&mut self, v: u8)
        ensures
            final(self).0 == old(self).0 / 128 * 128 + (v % 8) * 16 + old(self).0 % 16,
    {
        self.0 = self.0 / 128 * 128 + (v % 8) * 16 + self.0 % 16;
    }

    /// Ones place of minutes (0-9) (bits 3:0).
    pub open spec fn spec_minutes(&self) -> u8 {
        (self.0 % 16) as u8
    }

    /// Ones place of minutes (0-9)
    #[verifier::when_used_as_spec(spec_minutes)]
    pub fn minutes(&self) -> (r: u8)
        ensures
            r == self.spec_minutes(),
    {
        self.0 % 16
    }

    /// Sets bits 3:0 to `v` modulo 16, leaving the other bits unchanged.
    pub fn set_minutes(&mut self, v: u8)
        ensures
            final(self).0 == old(self).0 / 16 * 16 + (v % 16),
    {
        self.0 = self.0 / 16 * 16 + (v % 16);
    }
}

/// Alarm Hours register with mask bit and time format control (used by both Alarm 1 and Alarm 2).
#[derive(Clone, Copy, Debug, PartialEq, Eq, Structural)]
pub struct AlarmHours(pub u8);

impl Default for AlarmHours {
    /// Returns the all-zero register byte.
    fn default() -> (r: Self)
        ensures
            r.0 == 0,
    {
        AlarmHours(0)
    }
}

impl From<u8> for AlarmHours {
    /// Wraps a raw register byte.
    fn from(v: u8) -> (r: Self) {
        AlarmHours(v)
    }
}

impl vstd::std_specs::convert::FromSpecImpl<u8> for AlarmHours {
    open spec fn obeys_from_spec() -> bool {
        true
    }

    open spec fn from_spec(v: u8) -> Self {
        AlarmHours(v)
    }
}

impl From<AlarmHours> for u8 {
    /// Unwraps the raw register byte.
    fn from(v: AlarmHours) -> (r: Self) {
        v.0
    }
}

impl vstd::std_specs::convert::FromSpecImpl<AlarmHours> for u8 {
    open spec fn obeys_from_spec() -> bool {
        true
    }

    open spec fn from_spec(v: AlarmHours) -> Self {
        v.0
    }
}

impl AlarmHours {
    /// Alarm mask bit 3 (A1M3/A2M3) (bit 7).
    pub open spec fn spec_alarm_mask3(&self) -> bool {
        self.0 / 128 == 1
    }

    /// Alarm mask bit 3 (A1M3/A2M3)
    #[verifier::when_used_as_spec(spec_alarm_mask3)]
    pub fn alarm_mask3(&self) -> (r: bool)
        ensures
            r == self.spec_alarm_mask3(),
    {
        self.0 / 128 == 1
    }

    /// Sets bit 7 to `v`, leaving the other bits unchanged.
    pub fn set_alarm_mask3(&mut self, v: bool)
        ensures
            final(self).0 == (if v { 128int } else { 0int }) + old(self).0 % 128,
    {
        self.0 = (if v { 128u8 } else { 0u8 }) + self.0 % 128;
    }

    /// Time representation format (12/24 hour) (bits 6:6).
    pub open spec fn spec_time_representation(&self) -> TimeRepresentation {
        TimeRepresentation::spec_from_bits(((self.0 / 64) % 2) as u8)
    }

    /// Time representation format (12/24 hour)
    #[verifier::when_used_as_spec(spec_time_representation)]
    pub fn time_representation(&self) -> (r: TimeRepresentation)
        ensures
            r == self.spec_time_representation(),
    {
        TimeRepresentation::from((self.0 / 64) % 2)
    }

    /// Sets bits 6:6 to the encoding of `v`, leaving the other bits unchanged.
    pub fn set_time_representation(&mut self, v: TimeRepresentation)
        ensures
            final(self).0 == old(self).0 / 128 * 128 + v.spec_bits() * 64 + old(self).0 % 64,
    {
        let b: u8 = u8::from(v);
        self.0 = self.0 / 128 * 128 + b * 64 + self.0 % 64;
    }

    /// PM flag (12-hour) or 20-hour bit (24-hour) (bits 5:5).
    pub open spec fn spec_pm_or_twenty_hours(&self) -> u8 {
        ((self.0 / 32) % 2) as u8
    }

    /// PM flag (12-hour) or 20-hour bit (24-hour)
    #[verifier::when_used_as_spec(spec_pm_or_twenty_hours)]
    pub fn pm_or_twenty_hours(&self) -> (r: u8)
        ensures
            r == self.spec_pm_or_twenty_hours(),
    {
        (self.0 / 32) % 2
    }

    /// Sets bits 5:5 to `v` modulo 2, leaving the other bits unchanged.
    pub fn set_pm_or_twenty_hours(&mut self, v: u8)
        ensures
            final(self).0 == old(self).0 / 64 * 64 + (v % 2) * 32 + old(self).0 % 32,
    {
        self.0 = self.0 / 64 * 64 + (v % 2) * 32 + self.0 % 32;
    }

    /// Tens place of hours (bits 4:4).
    pub open spec fn spec_ten_hours(&self) -> u8 {
        ((self.0 / 16) % 2) as u8
    }

    /// Tens place of hours
    #[verifier::when_used_as_spec(spec_ten_hours)]
    pub fn ten_hours(&self) -> (r: u8)
        ensures
            r == self.spec_ten_hours(),
    {
        (self.0 / 16) % 2
    }

    /// Sets bits 4:4 to `v` modulo 2, leaving the other bits unchanged.
    pub fn set_ten_hours(&mut self, v: u8)
        ensures
            final(self).0 == old(self).0 / 32 * 32 + (v % 2) * 16 + old(self).0 % 16,
    {
        self.0 = self.0 / 32 * 32 + (v % 2) * 16 + self.0 % 16;
    }

    /// Ones place of hours (bits 3:0).
    pub open spec fn spec_hours(&self) -> u8 {
        (self.0 % 16) as u8
    }

    /// Ones place of hours
    #[verifier::when_used_as_spec(spec_hours)]
    pub fn hours(&self) -> (r: u8)
        ensures
            r == self.spec_hours(),
    {
        self.0 % 16
    }

    /// Sets bits 3:0 to `v` modulo 16, leaving the other bits unchanged.
    pub fn set_hours(&mut self, v: u8)
        ensures
            final(self).0 == old(self).0 / 16 * 16 + (v % 16),
    {
        self.0 = self.0 / 16 * 16 + (v % 16);
    }
}

/// Alarm Day/Date register with mask bit and DY/DT control (used by both Alarm 1 and Alarm 2).
#[derive(Clone, Copy, Debug, PartialEq, Eq, Structural)]
pub struct AlarmDayDate(pub u8);

impl Default for AlarmDayDate {
    /// Returns the all-zero register byte.
    fn default() -> (r: Self)
        ensures
            r.0 == 0,
    {
        AlarmDayDate(0)
    }
}

impl From<u8> for AlarmDayDate {
    /// Wraps a raw register byte.
    fn from(v: u8) -> (r: Self) {
        AlarmDayDate(v)
    }
}

impl vstd::std_specs::convert::FromSpecImpl<u8> for AlarmDayDate {
    open spec fn obeys_from_spec() -> bool {
        true
    }

    open spec fn from_spec(v: u8) -> Self {
        AlarmDayDate(v)
    }
}

impl From<AlarmDayDate> for u8 {
    /// Unwraps the raw register byte.
    fn from(v: AlarmDayDate) -> (r: Self) {
        v.0
    }
}

impl vstd::std_specs::convert::FromSpecImpl<AlarmDayDate> for u8 {
    open spec fn obeys_from_spec() -> bool {
        true
    }

    open spec fn from_spec(v: AlarmDayDate) -> Self {
        v.0
    }
}

impl AlarmDayDate {
    /// Alarm mask bit 4 (A1M4/A2M4) (bit 7).
    pub open spec fn spec_alarm_mask4(&self) -> bool {
        self.0 / 128 == 1
    }

    /// Alarm mask bit 4 (A1M4/A2M4)
    #[verifier::when_used_as_spec(spec_alarm_mask4)]
    pub fn alarm_mask4(&self) -> (r: bool)
        ensures
            r == self.spec_alarm_mask4(),
    {
        self.0 / 128 == 1
    }

    /// Sets bit 7 to `v`, leaving the other bits unchanged.
    pub fn set_alarm_mask4(&mut self, v: bool)
        ensures
            final(self).0 == (if v { 128int } else { 0int }) + old(self).0 % 128,
    {
        self.0 = (if v { 128u8 } else { 0u8 }) + self.0 % 128;
    }

    /// Day/Date select (1=day of week, 0=date of month) (bits 6:6).
    pub open spec fn spec_day_date_select(&self) -> DayDateSelect {
        DayDateSelect::spec_from_bits(((self.0 / 64) % 2) as u8)
    }

    /// Day/Date select (1=day of week, 0=date of month)
    #[verifier::when_used_as_spec(spec_day_date_select)]
    pub fn day_date_select(&self) -> (r: DayDateSelect)
        ensures
            r == self.spec_day_date_select(),
    {
        DayDateSelect::from((self.0 / 64) % 2)
    }

    /// Sets bits 6:6 to the encoding of `v`, leaving the other bits unchanged.
    pub fn set_day_date_select(&mut self, v: DayDateSelect)
        ensures
            final(self).0 == old(self).0 / 128 * 128 + v.spec_bits() * 64 + old(self).0 % 64,
    {
        let b: u8 = u8::from(v);
        self.0 = self.0 / 128 * 128 + b * 64 + self.0 % 64;
    }

    /// Tens place of date (0-3) when DY/DT=0, or unused when DY/DT=1 (bits 5:4).
    pub open spec fn spec_ten_date(&self) -> u8 {
        ((self.0 / 16) % 4) as u8
    }

    /// Tens place of date (0-3) when DY/DT=0, or unused when DY/DT=1
    #[verifier::when_used_as_spec(spec_ten_date)]
    pub fn ten_date(&self) -> (r: u8)
        ensures
            r == self.spec_ten_date(),
    {
        (self.0 / 16) % 4
    }

    /// Sets bits 5:4 to `v` modulo 4, leaving the other bits unchanged.
    pub fn set_ten_date(&mut self, v: u8)
        ensures
            final(self).0 == old(self).0 / 64 * 64 + (v % 4) * 16 + old(self).0 % 16,
    {
        self.0 = self.0 / 64 * 64 + (v % 4) * 16 + self.0 % 16;
    }

    /// Day of week (1-7) when DY/DT=1, or ones place of date (0-9) when DY/DT=0 (bits 3:0).
    pub open spec fn spec_day_or_date(&self) -> u8 {
        (self.0 % 16) as u8
    }

    /// Day of week (1-7) when DY/DT=1, or ones place of date (0-9) when DY/DT=0
    #[verifier::when_used_as_spec(spec_day_or_date)]
    pub fn day_or_date(&self) -> (r: u8)
        ensures
            r == self.spec_day_or_date(),
    {
        self.0 % 16
    }

    /// Sets bits 3:0 to `v` modulo 16, leaving the other bits unchanged.
    pub fn set_day_or_date(&mut self, v: u8)
        ensures
            final(self).0 == old(self).0 / 16 * 16 + (v % 16),
    {
        self.0 = self.0 / 16 * 16 + (v % 16);
    }
}

} // verus!
