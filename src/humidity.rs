use vstd::prelude::*;
use vstd::arithmetic::div_mod::{lemma_div_by_multiple, lemma_div_is_ordered, lemma_fundamental_div_mod};
use vstd::arithmetic::mul::lemma_mul_inequality;
use crate::limits::{InputRangeError, check_relative_humidity, check_vapor_pressure, vapor_pressure_check};
use crate::units::SCALE;

verus! {

/// Ratio of the molecular weights of water vapor and dry air (0.621945).
pub const MOLAR_MASS_RATIO: i64 = 621_945_000;

/// Smallest humidity ratio used or returned (1e-7): lower values, zero
/// included, are raised to it so that no later formula divides by zero.
pub const MIN_HUM_RATIO: i64 = 100;

pub open spec fn floored(w: int) -> int {
    if w < MIN_HUM_RATIO {
        MIN_HUM_RATIO as int
    } else {
        w
    }
}

/// Humidity ratio of moist air at `vapor_pressure` and total `pressure`.
pub open spec fn hum_ratio_of(vapor_pressure: int, pressure: int) -> int {
    floored(MOLAR_MASS_RATIO * vapor_pressure / (pressure - vapor_pressure))
}

/// Vapor pressure of moist air of humidity ratio `w` at total `pressure`.
pub open spec fn vap_pres_of(w: int, pressure: int) -> int {
    pressure * floored(w) / (MOLAR_MASS_RATIO + floored(w))
}

pub open spec fn vap_pres_of_rel_hum(rel_hum: int, saturation: int) -> int {
    rel_hum * saturation / SCALE as int
}

pub open spec fn rel_hum_of(vapor_pressure: int, saturation: int) -> int {
    vapor_pressure * SCALE / saturation
}

pub open spec fn degree_of_saturation_of(w: int, sat_w: int) -> int {
    floored(w) * SCALE / floored(sat_w)
}

pub open spec fn hum_ratio_of_degree(degree: int, sat_w: int) -> int {
    floored(degree * floored(sat_w) / SCALE as int)
}

proof fn lemma_part_of_whole(a: int, b: int, c: int)
    requires
        0 <= a <= c,
        0 < c,
        0 <= b,
    ensures
        0 <= a * b / c <= b,
{
    lemma_mul_inequality(a, c, b);
    lemma_mul_inequality(0, a, b);
    lemma_div_is_ordered(a * b, c * b, c);
    lemma_div_is_ordered(0, a * b, c);
    assert(c * b == b * c) by (nonlinear_arith);
    lemma_div_by_multiple(b, c);
}

/// Raises a humidity ratio below `MIN_HUM_RATIO` to it.
pub fn floor_hum_ratio(w: i64) -> (r: i64)
    ensures
        r == floored(w as int),
        r >= MIN_HUM_RATIO,
{
    if w < MIN_HUM_RATIO {
        MIN_HUM_RATIO
    } else {
        w
    }
}

/// Humidity ratio from vapor pressure and total pressure.
pub fn get_hum_ratio_from_vap_pres(vapor_pressure: i64, pressure: i64) -> (r: Result<
    i64,
    InputRangeError,
>)
    ensures
        pressure <= 0 ==> r == Err::<i64, _>(InputRangeError::NonPositivePressure),
        pressure > 0 && vapor_pressure < 0 ==> r == Err::<i64, _>(
            InputRangeError::NegativeVaporPressure,
        ),
        pressure > 0 && vapor_pressure >= pressure ==> r == Err::<i64, _>(
            InputRangeError::AboveTotalPressure,
        ),
        0 <= vapor_pressure < pressure && hum_ratio_of(vapor_pressure as int, pressure as int)
            > i64::MAX ==> r == Err::<i64, _>(InputRangeError::OutOfScale),
        0 <= vapor_pressure < pressure && hum_ratio_of(vapor_pressure as int, pressure as int)
            <= i64::MAX ==> r == Ok::<i64, InputRangeError>(
            hum_ratio_of(vapor_pressure as int, pressure as int) as i64,
        ),
        r is Ok ==> r->Ok_0 >= MIN_HUM_RATIO,
{
    if pressure <= 0 {
        return Err(InputRangeError::NonPositivePressure);
    }
    if vapor_pressure < 0 {
        return Err(InputRangeError::NegativeVaporPressure);
    }
    if vapor_pressure >= pressure {
        return Err(InputRangeError::AboveTotalPressure);
    }
    proof {
        lemma_mul_inequality(vapor_pressure as int, i64::MAX as int, MOLAR_MASS_RATIO as int);
        assert(vapor_pressure * MOLAR_MASS_RATIO == MOLAR_MASS_RATIO * vapor_pressure)
            by (nonlinear_arith);
        assert(MOLAR_MASS_RATIO * vapor_pressure >= 0) by (nonlinear_arith)
            requires vapor_pressure >= 0;
    }
    let q: i128 = (MOLAR_MASS_RATIO as i128) * (vapor_pressure as i128) / ((pressure as i128) - (
    vapor_pressure as i128));
    if q > i64::MAX as i128 {
        Err(InputRangeError::OutOfScale)
    } else {
        Ok(floor_hum_ratio(q as i64))
    }
}

/// Vapor pressure from humidity ratio and total pressure.
pub fn get_vap_pres_from_hum_ratio(w: i64, pressure: i64) -> (r: Result<i64, InputRangeError>)
    ensures
        pressure <= 0 ==> r == Err::<i64, _>(InputRangeError::NonPositivePressure),
        pressure > 0 ==> r == Ok::<i64, InputRangeError>(
            vap_pres_of(w as int, pressure as int) as i64,
        ),
        r is Ok ==> 0 <= r->Ok_0 < pressure,
{
    if pressure <= 0 {
        return Err(InputRangeError::NonPositivePressure);
    }
    let wf = floor_hum_ratio(w);
    proof {
        let d = MOLAR_MASS_RATIO + wf;
        lemma_part_of_whole(wf as int, pressure as int, d);
        assert(pressure * wf == wf * pressure) by (nonlinear_arith);
        assert(wf * pressure <= i64::MAX * i64::MAX) by (nonlinear_arith)
            requires 0 <= wf <= i64::MAX, 0 <= pressure <= i64::MAX;
        assert(pressure * wf / d < pressure) by (nonlinear_arith)
            requires pressure > 0, wf >= 0, d == MOLAR_MASS_RATIO + wf, pressure * wf / d <= pressure,
            MOLAR_MASS_RATIO > 0;
    }
    let v: i128 = (pressure as i128) * (wf as i128) / ((MOLAR_MASS_RATIO as i128) + (wf as i128));
    Ok(v as i64)
}

/// Vapor pressure from relative humidity (`SCALE` is saturation) and the
/// saturation pressure at the same temperature.
pub fn get_vap_pres_from_rel_hum(rel_hum: i64, saturation: i64) -> (r: Result<
    i64,
    InputRangeError,
>)
    ensures
        (rel_hum < 0 || rel_hum > SCALE) ==> r == Err::<i64, _>(
            InputRangeError::RelativeHumidityOutOfRange,
        ),
        0 <= rel_hum <= SCALE && saturation <= 0 ==> r == Err::<i64, _>(
            InputRangeError::NonPositivePressure,
        ),
        0 <= rel_hum <= SCALE && saturation > 0 ==> r == Ok::<i64, InputRangeError>(
            vap_pres_of_rel_hum(rel_hum as int, saturation as int) as i64,
        ),
        r is Ok ==> 0 <= r->Ok_0 <= saturation,
{
    match check_relative_humidity(rel_hum) {
        Err(e) => { return Err(e); },
        Ok(()) => {},
    }
    if saturation <= 0 {
        return Err(InputRangeError::NonPositivePressure);
    }
    proof {
        lemma_part_of_whole(rel_hum as int, saturation as int, SCALE as int);
        assert(rel_hum * saturation <= SCALE * i64::MAX) by (nonlinear_arith)
            requires 0 <= rel_hum <= SCALE, 0 <= saturation <= i64::MAX;
    }
    let v: i128 = (rel_hum as i128) * (saturation as i128) / (SCALE as i128);
    Ok(v as i64)
}

/// Relative humidity (`SCALE` is saturation) from vapor pressure and the
/// saturation pressure at the same temperature.
pub fn get_rel_hum_from_vap_pres(vapor_pressure: i64, saturation: i64) -> (r: Result<
    i64,
    InputRangeError,
>)
    ensures
        saturation <= 0 ==> r == Err::<i64, _>(InputRangeError::NonPositivePressure),
        saturation > 0 && vapor_pressure_check(vapor_pressure as int, saturation as int) is Err
            ==> r == Err::<i64, InputRangeError>(
            vapor_pressure_check(vapor_pressure as int, saturation as int)->Err_0,
        ),
        saturation > 0 && vapor_pressure_check(vapor_pressure as int, saturation as int) is Ok
            ==> r == Ok::<i64, InputRangeError>(
            rel_hum_of(vapor_pressure as int, saturation as int) as i64,
        ),
        r is Ok ==> 0 <= r->Ok_0 <= SCALE,
{
    if saturation <= 0 {
        return Err(InputRangeError::NonPositivePressure);
    }
    match check_vapor_pressure(vapor_pressure, saturation) {
        Err(e) => { return Err(e); },
        Ok(()) => {},
    }
    proof {
        lemma_part_of_whole(vapor_pressure as int, SCALE as int, saturation as int);
        assert(vapor_pressure * SCALE == SCALE * vapor_pressure) by (nonlinear_arith);
        assert(vapor_pressure * SCALE <= i64::MAX * SCALE) by (nonlinear_arith)
            requires 0 <= vapor_pressure <= i64::MAX;
    }
    let v: i128 = (vapor_pressure as i128) * (SCALE as i128) / (saturation as i128);
    Ok(v as i64)
}

/// Degree of saturation: the humidity ratio over the saturation humidity
/// ratio at the same temperature and pressure (`SCALE` is saturation). Both
/// are raised to `MIN_HUM_RATIO` first.
pub fn get_degree_of_saturation(w: i64, sat_w: i64) -> (r: Result<i64, InputRangeError>)
    ensures
        floored(w as int) > floored(sat_w as int) ==> r == Err::<i64, _>(
            InputRangeError::AboveSaturation,
        ),
        floored(w as int) <= floored(sat_w as int) ==> r == Ok::<i64, InputRangeError>(
            degree_of_saturation_of(w as int, sat_w as int) as i64,
        ),
        r is Ok ==> 0 <= r->Ok_0 <= SCALE,
{
    let wf = floor_hum_ratio(w);
    let sf = floor_hum_ratio(sat_w);
    if wf > sf {
        return Err(InputRangeError::AboveSaturation);
    }
    proof {
        lemma_part_of_whole(wf as int, SCALE as int, sf as int);
        assert(wf * SCALE == SCALE * wf) by (nonlinear_arith);
        assert(wf * SCALE <= i64::MAX * SCALE) by (nonlinear_arith)
            requires 0 <= wf <= i64::MAX;
    }
    let v: i128 = (wf as i128) * (SCALE as i128) / (sf as i128);
    Ok(v as i64)
}

/// Humidity ratio from degree of saturation (`SCALE` is saturation) and the
/// saturation humidity ratio at the same temperature and pressure.
pub fn get_hum_ratio_from_degree_of_saturation(degree: i64, sat_w: i64) -> (r: Result<
    i64,
    InputRangeError,
>)
    ensures
        (degree < 0 || degree > SCALE) ==> r == Err::<i64, _>(
            InputRangeError::DegreeOfSaturationOutOfRange,
        ),
        0 <= degree <= SCALE ==> r == Ok::<i64, InputRangeError>(
            hum_ratio_of_degree(degree as int, sat_w as int) as i64,
        ),
        r is Ok ==> MIN_HUM_RATIO <= r->Ok_0 <= floored(sat_w as int),
{
    if degree < 0 || degree > SCALE {
        return Err(InputRangeError::DegreeOfSaturationOutOfRange);
    }
    let sf = floor_hum_ratio(sat_w);
    proof {
        lemma_part_of_whole(degree as int, sf as int, SCALE as int);
        assert(degree * sf <= SCALE * i64::MAX) by (nonlinear_arith)
            requires 0 <= degree <= SCALE, 0 <= sf <= i64::MAX;
    }
    let v: i128 = (degree as i128) * (sf as i128) / (SCALE as i128);
    Ok(floor_hum_ratio(v as i64))
}

/// Relative humidity taken to a vapor pressure and back comes out at most
/// one step of `SCALE` per `saturation / SCALE` below where it started, and
/// never above it: within one step wherever the saturation pressure is at
/// least one unit.
pub proof fn lemma_rel_hum_round_trip(rel_hum: int, saturation: int)
    requires
        0 <= rel_hum <= SCALE,
        0 < saturation,
    ensures
        vapor_pressure_check(vap_pres_of_rel_hum(rel_hum, saturation), saturation) is Ok,
        rel_hum_of(vap_pres_of_rel_hum(rel_hum, saturation), saturation) <= rel_hum,
        (rel_hum - rel_hum_of(vap_pres_of_rel_hum(rel_hum, saturation), saturation) - 1)
            * saturation < SCALE,
        saturation >= SCALE ==> rel_hum - rel_hum_of(
            vap_pres_of_rel_hum(rel_hum, saturation),
            saturation,
        ) <= 1,
{
    let s = SCALE as int;
    let vp = vap_pres_of_rel_hum(rel_hum, saturation);
    let back = rel_hum_of(vp, saturation);
    lemma_part_of_whole(rel_hum, saturation, s);
    lemma_fundamental_div_mod(rel_hum * saturation, s);
    lemma_fundamental_div_mod(vp * s, saturation);
    assert(vp * s <= rel_hum * saturation < vp * s + s) by (nonlinear_arith)
        requires
            rel_hum * saturation == s * vp + (rel_hum * saturation) % s,
            0 <= (rel_hum * saturation) % s < s,
    ;
    assert(back * saturation <= vp * s < back * saturation + saturation) by (nonlinear_arith)
        requires
            vp * s == saturation * back + (vp * s) % saturation,
            0 <= (vp * s) % saturation < saturation,
    ;
    assert(back <= rel_hum) by (nonlinear_arith)
        requires
            back * saturation <= vp * s,
            vp * s <= rel_hum * saturation,
            saturation > 0,
    ;
    assert((rel_hum - back - 1) * saturation < s) by (nonlinear_arith)
        requires
            rel_hum * saturation < vp * s + s,
            vp * s < back * saturation + saturation,
    ;
    if saturation >= s {
        assert(rel_hum - back <= 1) by (nonlinear_arith)
            requires
                (rel_hum - back - 1) * saturation < s,
                saturation >= s,
                s > 0,
        ;
    }
}

} // verus!
