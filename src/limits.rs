use vstd::prelude::*;
use crate::units::{
    Psychrolib, UnitSystem, SCALE, ZERO_CELSIUS_AS_KELVIN, ZERO_FAHRENHEIT_AS_RANKINE,
    triple_point_of,
};

verus! {

/// Lowest temperature of the saturation correlations, SI (-100 C).
pub const MIN_TEMP_SI: i64 = -100_000_000_000;

/// Highest temperature of the saturation correlations, SI (200 C).
pub const MAX_TEMP_SI: i64 = 200_000_000_000;

/// Lowest temperature of the saturation correlations, IP (-148 F).
pub const MIN_TEMP_IP: i64 = -148_000_000_000;

/// Highest temperature of the saturation correlations, IP (392 F).
pub const MAX_TEMP_IP: i64 = 392_000_000_000;

/// An input outside the domain on which the correlations are defined.
#[derive(PartialEq, Eq, Structural, Debug, Clone, Copy)]
pub enum InputRangeError {
    BelowAbsoluteZero,
    NonPositivePressure,
    OutsideCorrelationRange,
    RelativeHumidityOutOfRange,
    NegativeVaporPressure,
    AboveSaturation,
    AboveTotalPressure,
    DegreeOfSaturationOutOfRange,
    OutOfScale,
}

/// Which saturation correlation applies: over ice at or below the triple
/// point, over liquid water above it.
#[derive(PartialEq, Eq, Structural, Debug, Clone, Copy)]
pub enum Phase {
    Ice,
    Liquid,
}

pub open spec fn absolute_offset(u: UnitSystem) -> int {
    match u {
        UnitSystem::IP => ZERO_FAHRENHEIT_AS_RANKINE as int,
        UnitSystem::SI => ZERO_CELSIUS_AS_KELVIN as int,
    }
}

pub open spec fn min_temp_of(u: UnitSystem) -> i64 {
    match u {
        UnitSystem::IP => MIN_TEMP_IP,
        UnitSystem::SI => MIN_TEMP_SI,
    }
}

pub open spec fn max_temp_of(u: UnitSystem) -> i64 {
    match u {
        UnitSystem::IP => MAX_TEMP_IP,
        UnitSystem::SI => MAX_TEMP_SI,
    }
}

pub open spec fn in_correlation_range(u: UnitSystem, t: int) -> bool {
    min_temp_of(u) <= t <= max_temp_of(u)
}

/// A measurement is a temperature strictly above absolute zero and a
/// positive pressure.
pub open spec fn measurement_check(u: UnitSystem, dry_bulb: int, pressure: int) -> Result<
    (),
    InputRangeError,
> {
    if dry_bulb + absolute_offset(u) <= 0 {
        Err(InputRangeError::BelowAbsoluteZero)
    } else if pressure <= 0 {
        Err(InputRangeError::NonPositivePressure)
    } else {
        Ok(())
    }
}

pub open spec fn branch_of(u: UnitSystem, t: int) -> Result<Phase, InputRangeError> {
    if !in_correlation_range(u, t) {
        Err(InputRangeError::OutsideCorrelationRange)
    } else if t <= triple_point_of(u) {
        Ok(Phase::Ice)
    } else {
        Ok(Phase::Liquid)
    }
}

pub open spec fn vapor_pressure_check(vapor_pressure: int, saturation: int) -> Result<
    (),
    InputRangeError,
> {
    if vapor_pressure < 0 {
        Err(InputRangeError::NegativeVaporPressure)
    } else if vapor_pressure > saturation {
        Err(InputRangeError::AboveSaturation)
    } else {
        Ok(())
    }
}

/// Degree Rankine from degree Fahrenheit.
pub fn get_t_rankine_from_t_fahrenheit(t_fahrenheit: i64) -> (r: i64)
    requires
        t_fahrenheit + ZERO_FAHRENHEIT_AS_RANKINE <= i64::MAX,
    ensures
        r == t_fahrenheit + ZERO_FAHRENHEIT_AS_RANKINE,
{
    t_fahrenheit + ZERO_FAHRENHEIT_AS_RANKINE
}

/// Kelvin from degree Celsius.
pub fn get_t_kelvin_from_t_celsius(t_celsius: i64) -> (r: i64)
    requires
        t_celsius + ZERO_CELSIUS_AS_KELVIN <= i64::MAX,
    ensures
        r == t_celsius + ZERO_CELSIUS_AS_KELVIN,
{
    t_celsius + ZERO_CELSIUS_AS_KELVIN
}

/// Relative humidity lies in `[0, 1]`, that is `[0, SCALE]` steps.
pub fn check_relative_humidity(rel_hum: i64) -> (r: Result<(), InputRangeError>)
    ensures
        r is Err <==> (rel_hum < 0 || rel_hum > SCALE),
        r is Err ==> r == Err::<(), _>(InputRangeError::RelativeHumidityOutOfRange),
{
    if rel_hum < 0 || rel_hum > SCALE {
        Err(InputRangeError::RelativeHumidityOutOfRange)
    } else {
        Ok(())
    }
}

/// A vapor pressure is not negative and not above the saturation pressure
/// at the same temperature.
pub fn check_vapor_pressure(vapor_pressure: i64, saturation: i64) -> (r: Result<(), InputRangeError>)
    ensures
        r == vapor_pressure_check(vapor_pressure as int, saturation as int),
{
    if vapor_pressure < 0 {
        Err(InputRangeError::NegativeVaporPressure)
    } else if vapor_pressure > saturation {
        Err(InputRangeError::AboveSaturation)
    } else {
        Ok(())
    }
}

impl Psychrolib {
    /// The absolute temperature (K or R) of a temperature in C or F.
    pub fn absolute_temperature(&self, t: i64) -> (r: i64)
        requires
            t + absolute_offset(self.system()) <= i64::MAX,
        ensures
            r == t + absolute_offset(self.system()),
    {
        match self.GetUnitSystem() {
            UnitSystem::IP => get_t_rankine_from_t_fahrenheit(t),
            UnitSystem::SI => get_t_kelvin_from_t_celsius(t),
        }
    }

    /// Checks a measurement of dry-bulb temperature and pressure.
    pub fn check_measurement(&self, dry_bulb: i64, pressure: i64) -> (r: Result<(), InputRangeError>)
        ensures
            r == measurement_check(self.system(), dry_bulb as int, pressure as int),
    {
        let offset = match self.GetUnitSystem() {
            UnitSystem::IP => ZERO_FAHRENHEIT_AS_RANKINE,
            UnitSystem::SI => ZERO_CELSIUS_AS_KELVIN,
        };
        if dry_bulb <= -offset {
            Err(InputRangeError::BelowAbsoluteZero)
        } else if pressure <= 0 {
            Err(InputRangeError::NonPositivePressure)
        } else {
            Ok(())
        }
    }

    /// The saturation correlation that applies at `t`, or an error where
    /// neither is defined.
    pub fn saturation_branch(&self, t: i64) -> (r: Result<Phase, InputRangeError>)
        ensures
            r == branch_of(self.system(), t as int),
    {
        if t < self.min_temperature() || t > self.max_temperature() {
            Err(InputRangeError::OutsideCorrelationRange)
        } else if t <= self.triple_point() {
            Ok(Phase::Ice)
        } else {
            Ok(Phase::Liquid)
        }
    }

    /// Lowest temperature of the saturation correlations.
    pub fn min_temperature(&self) -> (r: i64)
        ensures
            r == min_temp_of(self.system()),
    {
        match self.GetUnitSystem() {
            UnitSystem::IP => MIN_TEMP_IP,
            UnitSystem::SI => MIN_TEMP_SI,
        }
    }

    /// Highest temperature of the saturation correlations.
    pub fn max_temperature(&self) -> (r: i64)
        ensures
            r == max_temp_of(self.system()),
    {
        match self.GetUnitSystem() {
            UnitSystem::IP => MAX_TEMP_IP,
            UnitSystem::SI => MAX_TEMP_SI,
        }
    }
}

} // verus!
