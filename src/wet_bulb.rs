use vstd::prelude::*;
use crate::humidity::{floor_hum_ratio, floored};
use crate::limits::{InputRangeError, in_correlation_range};
use vstd::arithmetic::div_mod::lemma_fundamental_div_mod;
use crate::properties::{HUM_RATIO_LIMIT, floor_div};
use crate::units::{Psychrolib, UnitSystem, SCALE, freezing_point_of};

verus! {

/// Coefficients `(a, b, c, d, e)` of the adiabatic-saturation balance, in
/// thousandths, over liquid water (`liquid`) or over ice:
/// `w = ((a - b t) ws - c (t_db - t)) / (a + d t_db - e t)`.
pub open spec fn balance_coefficients(u: UnitSystem, liquid: bool) -> (int, int, int, int, int) {
    match u {
        UnitSystem::SI => if liquid {
            (2_501_000, 2326, 1006, 1860, 4186)
        } else {
            (2_830_000, 240, 1006, 1860, 2100)
        },
        UnitSystem::IP => if liquid {
            (1_093_000, 556, 240, 444, 1000)
        } else {
            (1_220_000, 40, 240, 444, 480)
        },
    }
}

/// The humidity ratio that air at `dry_bulb` must have for `wet_bulb` to be
/// its wet-bulb temperature, where `sat_w` is the saturation humidity ratio
/// at `wet_bulb`. The liquid balance applies at or above freezing. At the
/// dry-bulb temperature itself nothing has evaporated and the air is
/// saturated, which the rounded coefficients over ice in IP do not give
/// exactly.
pub open spec fn implied_hum_ratio(u: UnitSystem, dry_bulb: int, wet_bulb: int, sat_w: int) -> int {
    let (a, b, c, d, e) = balance_coefficients(u, wet_bulb >= freezing_point_of(u));
    let s = SCALE as int;
    if wet_bulb == dry_bulb {
        floored(sat_w)
    } else {
        ((a * s - b * wet_bulb) * floored(sat_w) - c * (dry_bulb - wet_bulb) * s) / (a * s + d
            * dry_bulb - e * wet_bulb)
    }
}

/// The residual of a wet-bulb probe: implied humidity ratio minus the target
/// (raised to the floor).
pub open spec fn wet_bulb_residual_of(
    u: UnitSystem,
    dry_bulb: int,
    wet_bulb: int,
    sat_w: int,
    target: int,
) -> int {
    implied_hum_ratio(u, dry_bulb, wet_bulb, sat_w) - floored(target)
}

pub open spec fn wet_bulb_probe_check(
    u: UnitSystem,
    dry_bulb: int,
    wet_bulb: int,
    sat_w: int,
    target: int,
) -> Result<(), InputRangeError> {
    if !in_correlation_range(u, dry_bulb) || !in_correlation_range(u, wet_bulb) || wet_bulb > dry_bulb {
        Err(InputRangeError::OutsideCorrelationRange)
    } else if floored(sat_w) > HUM_RATIO_LIMIT || floored(target) > HUM_RATIO_LIMIT {
        Err(InputRangeError::OutOfScale)
    } else {
        Ok(())
    }
}

pub open spec fn residual_fits(u: UnitSystem, dry_bulb: int, wet_bulb: int, sat_w: int, target: int) -> bool {
    i64::MIN <= wet_bulb_residual_of(u, dry_bulb, wet_bulb, sat_w, target) <= i64::MAX
}

impl Psychrolib {
    fn balance_parts(&self, liquid: bool) -> (r: (i64, i64, i64, i64, i64))
        ensures
            r.0 as int == balance_coefficients(self.system(), liquid).0,
            r.1 as int == balance_coefficients(self.system(), liquid).1,
            r.2 as int == balance_coefficients(self.system(), liquid).2,
            r.3 as int == balance_coefficients(self.system(), liquid).3,
            r.4 as int == balance_coefficients(self.system(), liquid).4,
    {
        match self.GetUnitSystem() {
            UnitSystem::SI => if liquid {
                (2_501_000, 2326, 1006, 1860, 4186)
            } else {
                (2_830_000, 240, 1006, 1860, 2100)
            },
            UnitSystem::IP => if liquid {
                (1_093_000, 556, 240, 444, 1000)
            } else {
                (1_220_000, 40, 240, 444, 480)
            },
        }
    }

    /// The residual to hand to a wet-bulb bracket for the probe `wet_bulb`,
    /// where `sat_w` is the saturation humidity ratio at `wet_bulb` and
    /// `target` the humidity ratio of the air.
    pub fn wet_bulb_residual(&self, dry_bulb: i64, wet_bulb: i64, sat_w: i64, target: i64) -> (r:
        Result<i64, InputRangeError>)
        ensures
            wet_bulb_probe_check(self.system(), dry_bulb as int, wet_bulb as int, sat_w as int, target as int) is Err
                ==> r == Err::<i64, InputRangeError>(
                wet_bulb_probe_check(self.system(), dry_bulb as int, wet_bulb as int, sat_w as int, target as int)->Err_0,
            ),
            wet_bulb_probe_check(self.system(), dry_bulb as int, wet_bulb as int, sat_w as int, target as int) is Ok
                && residual_fits(self.system(), dry_bulb as int, wet_bulb as int, sat_w as int, target as int)
                ==> r == Ok::<i64, InputRangeError>(
                wet_bulb_residual_of(
                    self.system(),
                    dry_bulb as int,
                    wet_bulb as int,
                    sat_w as int,
                    target as int,
                ) as i64,
            ),
            wet_bulb_probe_check(self.system(), dry_bulb as int, wet_bulb as int, sat_w as int, target as int) is Ok
                && !residual_fits(self.system(), dry_bulb as int, wet_bulb as int, sat_w as int, target as int)
                ==> r == Err::<i64, InputRangeError>(InputRangeError::OutOfScale),
    {
        let lowest = self.min_temperature();
        let highest = self.max_temperature();
        if dry_bulb < lowest || dry_bulb > highest || wet_bulb < lowest || wet_bulb > highest
            || wet_bulb > dry_bulb {
            return Err(InputRangeError::OutsideCorrelationRange);
        }
        let ws = floor_hum_ratio(sat_w);
        let tw = floor_hum_ratio(target);
        if ws > HUM_RATIO_LIMIT || tw > HUM_RATIO_LIMIT {
            return Err(InputRangeError::OutOfScale);
        }
        if wet_bulb == dry_bulb {
            return Ok(ws - tw);
        }
        let liquid = wet_bulb >= self.freezing_point();
        let (a, b, c, d, e) = self.balance_parts(liquid);
        let s = SCALE as i128;
        let t = wet_bulb as i128;
        let tdb = dry_bulb as i128;
        proof {
            assert(-148_000_000_000 <= t <= tdb <= 392_000_000_000);
            assert(liquid ==> t >= 0);
            assert(!liquid ==> t < 32_000_000_000);
            assert(0 <= b * t <= 2326 * 392_000_000_000 || (t < 0 && 0 >= b * t >= -2326 * 148_000_000_000)) by (nonlinear_arith)
                requires -148_000_000_000 <= t <= 392_000_000_000, 0 <= b <= 2326;
            assert(0 <= c * (tdb - t) <= 1006 * 540_000_000_000) by (nonlinear_arith)
                requires 0 <= tdb - t <= 540_000_000_000, 0 <= c <= 1006;
            assert(a * s - b * t > 0) by (nonlinear_arith)
                requires b * t <= 2326 * 392_000_000_000, a >= 1_093_000, s == SCALE;
            assert(a * s - b * t <= 2_830_000 * SCALE + 2326 * 148_000_000_000) by (nonlinear_arith)
                requires b * t >= -2326 * 148_000_000_000, a <= 2_830_000, s == SCALE;
            assert(0 <= (a * s - b * t) * ws <= (2_830_000 * SCALE + 2326 * 148_000_000_000) * HUM_RATIO_LIMIT) by (nonlinear_arith)
                requires 0 < a * s - b * t <= 2_830_000 * SCALE + 2326 * 148_000_000_000, 0 <= ws <= HUM_RATIO_LIMIT;
            assert(0 <= c * (tdb - t) * s <= 1006 * 540_000_000_000 * SCALE) by (nonlinear_arith)
                requires 0 <= c * (tdb - t) <= 1006 * 540_000_000_000, s == SCALE;
            assert(d * tdb - e * t == (d - e) * t + d * (tdb - t)) by (nonlinear_arith);
            assert(0 <= d * (tdb - t) <= 1860 * 540_000_000_000) by (nonlinear_arith)
                requires 0 <= tdb - t <= 540_000_000_000, 0 <= d <= 1860;
            assert(-4186 * 148_000_000_000 <= (e - d) * t <= 2326 * 392_000_000_000) by (nonlinear_arith)
                requires -148_000_000_000 <= t <= 392_000_000_000, 0 <= e - d <= 2326;
        }
        let den: i128 = (a as i128) * s + (d as i128) * tdb - (e as i128) * t;
        proof {
            assert(den > 0) by (nonlinear_arith)
                requires
                    den == a * s + (d - e) * t + d * (tdb - t),
                    0 <= d * (tdb - t),
                    a >= 1_093_000,
                    s == SCALE,
                    (e - d) * t <= 2326 * 392_000_000_000,
            ;
        }
        let num: i128 = ((a as i128) * s - (b as i128) * t) * (ws as i128) - (c as i128) * (tdb
            - t) * s;
        let implied = floor_div(num, den);
        proof {
            assert(den <= 100_000_000_000_000_000) by (nonlinear_arith)
                requires
                    den == a * s + (d - e) * t + d * (tdb - t),
                    d * (tdb - t) <= 1860 * 540_000_000_000,
                    a <= 2_830_000,
                    s == SCALE,
                    -4186 * 148_000_000_000 <= (e - d) * t,
            ;
            lemma_fundamental_div_mod(num as int, den as int);
            assert(-1_000_000_000_000_000_000_000_000 <= implied <= 1_000_000_000_000_000_000_000_000_000)
                by (nonlinear_arith)
                requires
                    num == den * implied + num % den,
                    0 <= num % den < den,
                    1 <= den <= 100_000_000_000_000_000,
                    -1_000_000_000_000_000_000_000_000 <= num <= 1_000_000_000_000_000_000_000_000_000,
            ;
        }
        let residual: i128 = implied - (tw as i128);
        if residual > i64::MAX as i128 || residual < i64::MIN as i128 {
            return Err(InputRangeError::OutOfScale);
        }
        Ok(residual as i64)
    }
}

/// Air whose humidity ratio is the saturation humidity ratio at its
/// dry-bulb temperature gives a zero residual at the first probe of a
/// wet-bulb search, so its wet-bulb temperature is its dry-bulb temperature.
pub proof fn lemma_saturated_air_residual_zero(u: UnitSystem, dry_bulb: int, sat_w: int)
    ensures
        wet_bulb_residual_of(u, dry_bulb, dry_bulb, sat_w, sat_w) == 0,
{
}

} // verus!
