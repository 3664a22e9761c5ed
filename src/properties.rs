use vstd::prelude::*;
use vstd::arithmetic::div_mod::lemma_fundamental_div_mod;
use crate::humidity::{floor_hum_ratio, floored};
use crate::limits::{InputRangeError, absolute_offset, measurement_check};
use crate::units::{Psychrolib, UnitSystem, SCALE, gas_constant_of};

verus! {

/// Largest temperature magnitude the closed-form properties take (1000).
pub const TEMPERATURE_LIMIT: i64 = 1_000_000_000_000;

/// Largest humidity ratio the closed-form properties take (100).
pub const HUM_RATIO_LIMIT: i64 = 100_000_000_000;

/// Largest pressure the closed-form properties take (10^6).
pub const PRESSURE_LIMIT: i64 = 1_000_000_000_000_000;

/// Psi to pounds per square foot, the IP pressure in the gas law.
pub const SQUARE_INCHES_PER_SQUARE_FOOT: i64 = 144;

/// The ratio 1.607858 of the moist-air gas law, in millionths.
pub const VOLUME_FACTOR_MICRO: i64 = 1_607_858;

/// The dry-air specific heat, latent heat and vapor specific heat of the
/// enthalpy correlation, in thousandths: kJ/kg/K, kJ/kg, kJ/kg/K in SI.
pub open spec fn enthalpy_coefficients(u: UnitSystem) -> (int, int, int) {
    match u {
        UnitSystem::SI => (1006, 2_501_000, 1860),
        UnitSystem::IP => (240, 1_061_000, 444),
    }
}

/// Enthalpy of moist air: `c_a t + w (l + c_v t)`.
pub open spec fn enthalpy_of(u: UnitSystem, t: int, w: int) -> int {
    let (ca, l, cv) = enthalpy_coefficients(u);
    let s = SCALE as int;
    (ca * t * s + floored(w) * (l * s + cv * t)) / (1000 * s)
}

pub open spec fn pressure_factor(u: UnitSystem) -> int {
    match u {
        UnitSystem::SI => 1,
        UnitSystem::IP => SQUARE_INCHES_PER_SQUARE_FOOT as int,
    }
}

/// `1 + 1.607858 w`, counted in 10^-15 steps.
pub open spec fn volume_factor(w: int) -> int {
    1_000_000 * SCALE + VOLUME_FACTOR_MICRO * floored(w)
}

/// Specific volume of moist air: `r_da t_abs (1 + 1.607858 w) / p`.
pub open spec fn volume_of(u: UnitSystem, t: int, w: int, p: int) -> int {
    (gas_constant_of(u) / 1_000_000) * (t + absolute_offset(u)) * volume_factor(w) / (SCALE
        * pressure_factor(u) * p)
}

/// Density of moist air: `(1 + w) / v`, with `v` the specific volume.
pub open spec fn density_of(u: UnitSystem, t: int, w: int, p: int) -> int {
    (SCALE + floored(w)) * SCALE / volume_of(u, t, w, p)
}

/// Inputs that the closed-form properties take: a measurement above
/// absolute zero, then magnitudes within the fixed-point limits.
pub open spec fn property_inputs_check(u: UnitSystem, t: int, w: int, p: int) -> Result<
    (),
    InputRangeError,
> {
    match measurement_check(u, t, p) {
        Err(e) => Err(e),
        Ok(_) => if t > TEMPERATURE_LIMIT || floored(w) > HUM_RATIO_LIMIT || p > PRESSURE_LIMIT {
            Err(InputRangeError::OutOfScale)
        } else {
            Ok(())
        },
    }
}

/// Floor of `n / d`, also for negative `n`.
pub(crate) fn floor_div(n: i128, d: i128) -> (r: i128)
    requires
        d > 0,
        n > i128::MIN,
    ensures
        r == n as int / d as int,
{
    if n >= 0 {
        n / d
    } else {
        let m: i128 = -n;
        let q: i128 = m / d;
        proof {
            lemma_fundamental_div_mod(m as int, d as int);
            lemma_fundamental_div_mod(n as int, d as int);
            let nq = n as int / d as int;
            let nr = n as int % d as int;
            let mr = m as int % d as int;
            if q * d == m {
                assert(nq == -q) by (nonlinear_arith)
                    requires n == d * nq + nr, 0 <= nr < d, q * d == m, m == -n;
            } else {
                assert(nq == -q - 1) by (nonlinear_arith)
                    requires n == d * nq + nr, 0 <= nr < d, m == d * q + mr, 0 <= mr < d, q * d != m, m == -n;
            }
        }
        if q * d == m {
            -q
        } else {
            -q - 1
        }
    }
}

impl Psychrolib {
    fn enthalpy_parts(&self) -> (r: (i64, i64, i64))
        ensures
            r.0 as int == enthalpy_coefficients(self.system()).0,
            r.1 as int == enthalpy_coefficients(self.system()).1,
            r.2 as int == enthalpy_coefficients(self.system()).2,
    {
        match self.GetUnitSystem() {
            UnitSystem::SI => (1006, 2_501_000, 1860),
            UnitSystem::IP => (240, 1_061_000, 444),
        }
    }

    /// Moist-air enthalpy at dry-bulb temperature `dry_bulb` and humidity
    /// ratio `w` (raised to the floor first); kJ/kg in SI, Btu/lb in IP.
    pub fn get_moist_air_enthalpy(&self, dry_bulb: i64, w: i64) -> (r: Result<
        i64,
        InputRangeError,
    >)
        ensures
            property_inputs_check(self.system(), dry_bulb as int, w as int, 1) is Err ==> r
                == Err::<i64, InputRangeError>(
                property_inputs_check(self.system(), dry_bulb as int, w as int, 1)->Err_0,
            ),
            property_inputs_check(self.system(), dry_bulb as int, w as int, 1) is Ok ==> r
                == Ok::<i64, InputRangeError>(
                enthalpy_of(self.system(), dry_bulb as int, w as int) as i64,
            ),
    {
        match self.check_measurement(dry_bulb, 1) {
            Err(e) => { return Err(e); },
            Ok(()) => {},
        }
        let wf = floor_hum_ratio(w);
        if dry_bulb > TEMPERATURE_LIMIT || wf > HUM_RATIO_LIMIT {
            return Err(InputRangeError::OutOfScale);
        }
        let (ca, l, cv) = self.enthalpy_parts();
        let t = dry_bulb as i128;
        let s = SCALE as i128;
        proof {
            assert(-459_670_000_000 < t <= TEMPERATURE_LIMIT);
            assert(0 <= ca * t * s <= 1006 * TEMPERATURE_LIMIT * SCALE || 0 >= ca * t * s >= -1006 * TEMPERATURE_LIMIT * SCALE) by (nonlinear_arith)
                requires -TEMPERATURE_LIMIT <= t <= TEMPERATURE_LIMIT, 0 <= ca <= 1006, s == SCALE;
            assert(-1860 * 459_670_000_000 <= cv * t <= 1860 * TEMPERATURE_LIMIT) by (nonlinear_arith)
                requires -459_670_000_000 < t <= TEMPERATURE_LIMIT, 0 <= cv <= 1860;
            assert(0 < l * s + cv * t <= 2_501_000 * SCALE + 1860 * TEMPERATURE_LIMIT) by (nonlinear_arith)
                requires -1860 * 459_670_000_000 <= cv * t <= 1860 * TEMPERATURE_LIMIT,
                    1_061_000 <= l <= 2_501_000, s == SCALE;
            assert(0 <= wf * (l * s + cv * t) <= HUM_RATIO_LIMIT * (2_501_000 * SCALE + 1860 * TEMPERATURE_LIMIT)) by (nonlinear_arith)
                requires 0 <= wf <= HUM_RATIO_LIMIT, 0 < l * s + cv * t <= 2_501_000 * SCALE + 1860 * TEMPERATURE_LIMIT;
        }
        let num: i128 = (ca as i128) * t * s + (wf as i128) * ((l as i128) * s + (cv as i128) * t);
        let h = floor_div(num, 1000 * s);
        proof {
            assert(-1006 * TEMPERATURE_LIMIT * SCALE <= num <= 1006 * TEMPERATURE_LIMIT * SCALE + HUM_RATIO_LIMIT * (2_501_000 * SCALE + 1860 * TEMPERATURE_LIMIT));
            vstd::arithmetic::div_mod::lemma_div_is_ordered(num as int, 1006 * TEMPERATURE_LIMIT * SCALE + HUM_RATIO_LIMIT * (2_501_000 * SCALE + 1860 * TEMPERATURE_LIMIT), 1000 * SCALE);
            vstd::arithmetic::div_mod::lemma_div_is_ordered(-1006 * TEMPERATURE_LIMIT * SCALE, num as int, 1000 * SCALE);
        }
        Ok(h as i64)
    }
}


impl Psychrolib {
    fn pressure_unit(&self) -> (r: i64)
        ensures
            r == pressure_factor(self.system()),
    {
        match self.GetUnitSystem() {
            UnitSystem::SI => 1,
            UnitSystem::IP => SQUARE_INCHES_PER_SQUARE_FOOT,
        }
    }

    /// Checks the inputs of the closed-form properties.
    pub fn check_property_inputs(&self, dry_bulb: i64, w: i64, pressure: i64) -> (r: Result<
        (),
        InputRangeError,
    >)
        ensures
            r == property_inputs_check(self.system(), dry_bulb as int, w as int, pressure as int),
    {
        match self.check_measurement(dry_bulb, pressure) {
            Err(e) => Err(e),
            Ok(()) => {
                if dry_bulb > TEMPERATURE_LIMIT || floor_hum_ratio(w) > HUM_RATIO_LIMIT || pressure
                    > PRESSURE_LIMIT {
                    Err(InputRangeError::OutOfScale)
                } else {
                    Ok(())
                }
            },
        }
    }

    /// Specific volume of moist air per unit mass of dry air at `dry_bulb`,
    /// humidity ratio `w` (raised to the floor first) and `pressure`;
    /// m3/kg in SI, ft3/lb in IP.
    pub fn get_moist_air_volume(&self, dry_bulb: i64, w: i64, pressure: i64) -> (r: Result<
        i64,
        InputRangeError,
    >)
        ensures
            property_inputs_check(self.system(), dry_bulb as int, w as int, pressure as int) is Err
                ==> r == Err::<i64, InputRangeError>(
                property_inputs_check(
                    self.system(),
                    dry_bulb as int,
                    w as int,
                    pressure as int,
                )->Err_0,
            ),
            property_inputs_check(self.system(), dry_bulb as int, w as int, pressure as int) is Ok
                && volume_of(self.system(), dry_bulb as int, w as int, pressure as int) > i64::MAX
                ==> r == Err::<i64, InputRangeError>(InputRangeError::OutOfScale),
            property_inputs_check(self.system(), dry_bulb as int, w as int, pressure as int) is Ok
                && volume_of(self.system(), dry_bulb as int, w as int, pressure as int) <= i64::MAX
                ==> r == Ok::<i64, InputRangeError>(
                volume_of(self.system(), dry_bulb as int, w as int, pressure as int) as i64,
            ),
            r is Ok ==> r->Ok_0 >= 0,
    {
        match self.check_property_inputs(dry_bulb, w, pressure) {
            Err(e) => { return Err(e); },
            Ok(()) => {},
        }
        let v = self.volume_wide(dry_bulb, w, pressure);
        if v > i64::MAX as i128 {
            Err(InputRangeError::OutOfScale)
        } else {
            Ok(v as i64)
        }
    }

    fn volume_wide(&self, dry_bulb: i64, w: i64, pressure: i64) -> (r: i128)
        requires
            property_inputs_check(self.system(), dry_bulb as int, w as int, pressure as int) is Ok,
        ensures
            r == volume_of(self.system(), dry_bulb as int, w as int, pressure as int),
            r >= 0,
    {
        let r_milli = self.gas_constant_dry_air() / 1_000_000;
        let t_abs = self.absolute_temperature(dry_bulb);
        let wf = floor_hum_ratio(w);
        let k = self.pressure_unit();
        let f: i128 = 1_000_000 * (SCALE as i128) + (VOLUME_FACTOR_MICRO as i128) * (wf as i128);
        proof {
            assert(0 < r_milli <= 287042);
            assert(0 < t_abs <= 2 * TEMPERATURE_LIMIT);
            assert(0 < f <= 1_000_000 * SCALE + VOLUME_FACTOR_MICRO * HUM_RATIO_LIMIT) by (nonlinear_arith)
                requires f == 1_000_000 * SCALE + VOLUME_FACTOR_MICRO * wf, 0 <= wf <= HUM_RATIO_LIMIT;
            assert(0 < r_milli * t_abs <= 287042 * (2 * TEMPERATURE_LIMIT)) by (nonlinear_arith)
                requires 0 < r_milli <= 287042, 0 < t_abs <= 2 * TEMPERATURE_LIMIT;
            assert(0 < (r_milli * t_abs) * f <= (287042 * (2 * TEMPERATURE_LIMIT)) * (1_000_000 * SCALE + VOLUME_FACTOR_MICRO * HUM_RATIO_LIMIT)) by (nonlinear_arith)
                requires 0 < r_milli * t_abs <= 287042 * (2 * TEMPERATURE_LIMIT),
                    0 < f <= 1_000_000 * SCALE + VOLUME_FACTOR_MICRO * HUM_RATIO_LIMIT;
            assert(0 < (SCALE as int) * k * pressure <= SCALE * 144 * PRESSURE_LIMIT) by (nonlinear_arith)
                requires 1 <= k <= 144, 0 < pressure <= PRESSURE_LIMIT;
            assert(0 <= (r_milli * t_abs) * f / ((SCALE as int) * k * pressure)) by (nonlinear_arith)
                requires 0 < (r_milli * t_abs) * f, 0 < (SCALE as int) * k * pressure;
        }
        (r_milli as i128) * (t_abs as i128) * f / ((SCALE as i128) * (k as i128) * (pressure as i128))
    }

    /// Density of moist air at `dry_bulb`, humidity ratio `w` (raised to the
    /// floor first) and `pressure`: `(1 + w)` over the specific volume;
    /// kg/m3 in SI, lb/ft3 in IP.
    pub fn get_moist_air_density(&self, dry_bulb: i64, w: i64, pressure: i64) -> (r: Result<
        i64,
        InputRangeError,
    >)
        ensures
            property_inputs_check(self.system(), dry_bulb as int, w as int, pressure as int) is Err
                ==> r == Err::<i64, InputRangeError>(
                property_inputs_check(
                    self.system(),
                    dry_bulb as int,
                    w as int,
                    pressure as int,
                )->Err_0,
            ),
            property_inputs_check(self.system(), dry_bulb as int, w as int, pressure as int) is Ok
                && (volume_of(self.system(), dry_bulb as int, w as int, pressure as int) == 0
                || density_of(self.system(), dry_bulb as int, w as int, pressure as int) > i64::MAX)
                ==> r == Err::<i64, InputRangeError>(InputRangeError::OutOfScale),
            property_inputs_check(self.system(), dry_bulb as int, w as int, pressure as int) is Ok
                && volume_of(self.system(), dry_bulb as int, w as int, pressure as int) > 0
                && density_of(self.system(), dry_bulb as int, w as int, pressure as int) <= i64::MAX
                ==> r == Ok::<i64, InputRangeError>(
                density_of(self.system(), dry_bulb as int, w as int, pressure as int) as i64,
            ),
    {
        match self.check_property_inputs(dry_bulb, w, pressure) {
            Err(e) => { return Err(e); },
            Ok(()) => {},
        }
        let v = self.volume_wide(dry_bulb, w, pressure);
        if v == 0 {
            return Err(InputRangeError::OutOfScale);
        }
        let wf = floor_hum_ratio(w);
        proof {
            assert(0 <= ((SCALE as int) + wf) * SCALE <= (SCALE + HUM_RATIO_LIMIT) * SCALE) by (nonlinear_arith)
                requires 0 <= wf <= HUM_RATIO_LIMIT;
            assert(((SCALE as int) + wf) * SCALE / (v as int) >= 0) by (nonlinear_arith)
                requires 0 <= ((SCALE as int) + wf) * SCALE, v > 0;
        }
        let d: i128 = ((SCALE as i128) + (wf as i128)) * (SCALE as i128) / v;
        if d > i64::MAX as i128 {
            Err(InputRangeError::OutOfScale)
        } else {
            Ok(d as i64)
        }
    }
}

} // verus!
