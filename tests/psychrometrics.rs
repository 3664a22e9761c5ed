use psychrolib::humidity::{
    floor_hum_ratio, get_degree_of_saturation, get_hum_ratio_from_degree_of_saturation,
    get_hum_ratio_from_vap_pres, get_rel_hum_from_vap_pres, get_vap_pres_from_hum_ratio,
    get_vap_pres_from_rel_hum, MIN_HUM_RATIO,
};
use psychrolib::limits::{
    check_relative_humidity, check_vapor_pressure, get_t_kelvin_from_t_celsius, InputRangeError,
    Phase,
};
use psychrolib::solver::{Bracket, ConvergenceError, Outcome, MAX_ITER_COUNT};
use psychrolib::units::{
    Psychrolib, UnitSystem, FREEZING_POINT_WATER_IP, R_DA_IP, R_DA_SI, SCALE, TOLERANCE_IP,
    TOLERANCE_SI, TRIPLE_POINT_WATER_SI,
};

fn fixed(x: f64) -> i64 {
    (x * SCALE as f64).round() as i64
}

fn sat_pressure(ctx: &Psychrolib, t: i64) -> i64 {
    let tf = t as f64 / SCALE as f64;
    let ice = ctx.saturation_branch(t).unwrap() == Phase::Ice;
    let ln_pws = match ctx.GetUnitSystem() {
        UnitSystem::SI => {
            let k = tf + 273.15;
            if ice {
                -5.6745359E+03 / k + 6.3925247 - 9.677843E-03 * k + 6.2215701E-07 * k * k
                    + 2.0747825E-09 * k.powi(3) - 9.484024E-13 * k.powi(4) + 4.1635019 * k.ln()
            } else {
                -5.8002206E+03 / k + 1.3914993 - 4.8640239E-02 * k + 4.1764768E-05 * k * k
                    - 1.4452093E-08 * k.powi(3) + 6.5459673 * k.ln()
            }
        }
        UnitSystem::IP => {
            let r = tf + 459.67;
            if ice {
                -1.0214165E+04 / r - 4.8932428 - 5.3765794E-03 * r + 1.9202377E-07 * r * r
                    + 3.5575832E-10 * r.powi(3) - 9.0344688E-14 * r.powi(4) + 4.1635019 * r.ln()
            } else {
                -1.0440397E+04 / r - 1.1294650E+01 - 2.7022355E-02 * r + 1.2890360E-05 * r * r
                    - 2.4780681E-09 * r.powi(3) + 6.5459673 * r.ln()
            }
        }
    };
    fixed(ln_pws.exp())
}

fn wet_bulb(ctx: &Psychrolib, dry_bulb: i64, w: i64, pressure: i64) -> (Result<i64, ConvergenceError>, u64) {
    let mut b: Bracket = ctx.wet_bulb_bracket(dry_bulb, pressure).unwrap();
    let mut probes: u64 = 0;
    loop {
        let c = b.candidate();
        let ws = get_hum_ratio_from_vap_pres(sat_pressure(ctx, c), pressure).unwrap();
        let r = ctx.wet_bulb_residual(dry_bulb, c, ws, w).unwrap();
        probes += 1;
        match b.step(r) {
            Outcome::Next(n) => b = n,
            Outcome::Converged(t) => return (Ok(t), probes),
            Outcome::Failed(e) => return (Err(e), probes),
        }
    }
}

fn dew_point(ctx: &Psychrolib, dry_bulb: i64, vapor_pressure: i64) -> Result<i64, ConvergenceError> {
    let sat = sat_pressure(ctx, dry_bulb);
    let mut b = ctx.dew_point_bracket(dry_bulb, vapor_pressure, sat).unwrap();
    loop {
        let c = b.candidate();
        match b.step(sat_pressure(ctx, c) - vapor_pressure) {
            Outcome::Next(n) => b = n,
            Outcome::Converged(t) => return Ok(t),
            Outcome::Failed(e) => return Err(e),
        }
    }
}

#[test]
fn set_units_ip() {
    let psych = Psychrolib::new(UnitSystem::IP);

    assert_eq!(psych.GetUnitSystem(), &UnitSystem::IP);
    assert_eq!(psych.tolerance(), TOLERANCE_IP);
}

#[test]
fn get_unit_test() {
    let psych = Psychrolib::new(UnitSystem::IP);

    assert_eq!(psych.GetUnitSystem(), &UnitSystem::IP);
}

#[test]
fn get_t_rankine_from_t_fahrenheit() {
    assert_eq!(psychrolib::limits::get_t_rankine_from_t_fahrenheit(0), 459_670_000_000);
    assert_eq!(psychrolib::limits::get_t_rankine_from_t_fahrenheit(fixed(70.0)), 529_670_000_000);
}

#[test]
fn kelvin_from_celsius() {
    assert_eq!(get_t_kelvin_from_t_celsius(fixed(25.0)), 298_150_000_000);
}

#[test]
fn switching_leaves_original_context() {
    let ip = Psychrolib::new(UnitSystem::IP);
    let si = ip.with_unit_system(UnitSystem::SI);
    assert_eq!(ip.GetUnitSystem(), &UnitSystem::IP);
    assert_eq!(ip.tolerance(), TOLERANCE_IP);
    assert_eq!(ip.gas_constant_dry_air(), R_DA_IP);
    assert_eq!(si.GetUnitSystem(), &UnitSystem::SI);
    assert_eq!(si.tolerance(), TOLERANCE_SI);
    assert_eq!(si.gas_constant_dry_air(), R_DA_SI);
}

#[test]
fn set_units_rebuilds_constants() {
    let mut psych = Psychrolib::new(UnitSystem::SI);
    psych.set_units(UnitSystem::IP);
    assert_eq!(psych.GetUnitSystem(), &UnitSystem::IP);
    assert_eq!(psych.tolerance(), TOLERANCE_IP);
    assert_eq!(psych.gas_constant_dry_air(), R_DA_IP);
    assert_eq!(psych.freezing_point(), FREEZING_POINT_WATER_IP);
}

#[test]
fn measurement_errors() {
    let si = Psychrolib::new(UnitSystem::SI);
    assert_eq!(si.check_measurement(fixed(-273.15), 1), Err(InputRangeError::BelowAbsoluteZero));
    assert_eq!(si.check_measurement(fixed(20.0), 0), Err(InputRangeError::NonPositivePressure));
    assert_eq!(si.check_measurement(fixed(-273.0), 1), Ok(()));
    let ip = Psychrolib::new(UnitSystem::IP);
    assert_eq!(ip.check_measurement(fixed(-300.0), 1), Ok(()));
    assert_eq!(ip.absolute_temperature(fixed(32.0)), 491_670_000_000);
}

#[test]
fn saturation_branch_by_triple_point() {
    let si = Psychrolib::new(UnitSystem::SI);
    assert_eq!(si.saturation_branch(TRIPLE_POINT_WATER_SI), Ok(Phase::Ice));
    assert_eq!(si.saturation_branch(TRIPLE_POINT_WATER_SI + 1), Ok(Phase::Liquid));
    assert_eq!(si.saturation_branch(fixed(-100.0)), Ok(Phase::Ice));
    assert_eq!(si.saturation_branch(fixed(200.0)), Ok(Phase::Liquid));
    assert_eq!(si.saturation_branch(fixed(-100.0) - 1), Err(InputRangeError::OutsideCorrelationRange));
    assert_eq!(si.saturation_branch(fixed(200.0) + 1), Err(InputRangeError::OutsideCorrelationRange));
    let ip = Psychrolib::new(UnitSystem::IP);
    assert_eq!(ip.saturation_branch(fixed(32.0)), Ok(Phase::Ice));
    assert_eq!(ip.saturation_branch(fixed(392.0) + 1), Err(InputRangeError::OutsideCorrelationRange));
}

#[test]
fn relative_humidity_range() {
    assert_eq!(check_relative_humidity(-1), Err(InputRangeError::RelativeHumidityOutOfRange));
    assert_eq!(check_relative_humidity(SCALE + 1), Err(InputRangeError::RelativeHumidityOutOfRange));
    assert_eq!(check_relative_humidity(0), Ok(()));
    assert_eq!(check_relative_humidity(SCALE), Ok(()));
    assert_eq!(check_vapor_pressure(-1, 10), Err(InputRangeError::NegativeVaporPressure));
    assert_eq!(check_vapor_pressure(11, 10), Err(InputRangeError::AboveSaturation));
    assert_eq!(check_vapor_pressure(10, 10), Ok(()));
}

#[test]
fn hum_ratio_from_vapor_pressure() {
    let p = fixed(101325.0);
    assert_eq!(get_hum_ratio_from_vap_pres(fixed(1000.0), p), Ok(6_199_302));
    assert_eq!(get_hum_ratio_from_vap_pres(0, p), Ok(MIN_HUM_RATIO));
    assert_eq!(get_hum_ratio_from_vap_pres(1, 0), Err(InputRangeError::NonPositivePressure));
    assert_eq!(get_hum_ratio_from_vap_pres(-1, p), Err(InputRangeError::NegativeVaporPressure));
    assert_eq!(get_hum_ratio_from_vap_pres(p, p), Err(InputRangeError::AboveTotalPressure));
    assert_eq!(get_hum_ratio_from_vap_pres(i64::MAX - 1, i64::MAX), Err(InputRangeError::OutOfScale));
}

#[test]
fn hum_ratio_floor() {
    assert_eq!(floor_hum_ratio(0), MIN_HUM_RATIO);
    assert_eq!(floor_hum_ratio(-5), MIN_HUM_RATIO);
    assert_eq!(floor_hum_ratio(MIN_HUM_RATIO + 1), MIN_HUM_RATIO + 1);
}

#[test]
fn vapor_pressure_from_hum_ratio() {
    let p = fixed(101325.0);
    let vp = get_vap_pres_from_hum_ratio(6_199_302, p).unwrap();
    assert!((vp - fixed(1000.0)).abs() < fixed(0.0001));
    assert_eq!(get_vap_pres_from_hum_ratio(6_199_302, 0), Err(InputRangeError::NonPositivePressure));
    assert_eq!(get_vap_pres_from_hum_ratio(MOLAR, SCALE), Ok(500_000_000));
}

const MOLAR: i64 = 621_945_000;

#[test]
fn relative_humidity_round_trip() {
    let sat = fixed(2339.0);
    let vp = get_vap_pres_from_rel_hum(500_000_000, sat).unwrap();
    assert_eq!(vp, fixed(1169.5));
    assert_eq!(get_rel_hum_from_vap_pres(vp, sat), Ok(500_000_000));
    assert_eq!(get_vap_pres_from_rel_hum(SCALE + 1, sat), Err(InputRangeError::RelativeHumidityOutOfRange));
    assert_eq!(get_vap_pres_from_rel_hum(SCALE, 0), Err(InputRangeError::NonPositivePressure));
    assert_eq!(get_rel_hum_from_vap_pres(sat + 1, sat), Err(InputRangeError::AboveSaturation));
    assert_eq!(get_rel_hum_from_vap_pres(1, 0), Err(InputRangeError::NonPositivePressure));
    let mut rh: i64 = 0;
    while rh <= SCALE {
        let back = get_rel_hum_from_vap_pres(get_vap_pres_from_rel_hum(rh, sat).unwrap(), sat).unwrap();
        assert!(back <= rh && rh - back <= 1);
        rh += 12_345_678;
    }
}

#[test]
fn degree_of_saturation_conversions() {
    assert_eq!(get_degree_of_saturation(fixed(0.005), fixed(0.01)), Ok(500_000_000));
    assert_eq!(get_degree_of_saturation(fixed(0.02), fixed(0.01)), Err(InputRangeError::AboveSaturation));
    assert_eq!(get_degree_of_saturation(0, 0), Ok(SCALE));
    assert_eq!(get_hum_ratio_from_degree_of_saturation(250_000_000, fixed(0.02)), Ok(fixed(0.005)));
    assert_eq!(get_hum_ratio_from_degree_of_saturation(0, fixed(0.02)), Ok(MIN_HUM_RATIO));
    assert_eq!(
        get_hum_ratio_from_degree_of_saturation(SCALE + 1, fixed(0.02)),
        Err(InputRangeError::DegreeOfSaturationOutOfRange)
    );
}

#[test]
fn enthalpy_values() {
    let si = Psychrolib::new(UnitSystem::SI);
    assert_eq!(si.get_moist_air_enthalpy(fixed(25.0), fixed(0.01)), Ok(50_625_000_000));
    assert_eq!(si.get_moist_air_enthalpy(fixed(-10.0), 0), Ok(-10_059_751_760));
    assert_eq!(si.get_moist_air_enthalpy(fixed(-300.0), 0), Err(InputRangeError::BelowAbsoluteZero));
    assert_eq!(si.get_moist_air_enthalpy(fixed(2000.0), 0), Err(InputRangeError::OutOfScale));
    let ip = Psychrolib::new(UnitSystem::IP);
    assert_eq!(ip.get_moist_air_enthalpy(fixed(86.0), fixed(0.02)), Ok(fixed(0.240 * 86.0 + 0.02 * (1061.0 + 0.444 * 86.0))));
}

#[test]
fn volume_and_density_values() {
    let si = Psychrolib::new(UnitSystem::SI);
    let p = fixed(101325.0);
    assert_eq!(si.get_moist_air_volume(fixed(20.0), fixed(0.0075), p), Ok(840_474_491));
    assert_eq!(si.get_moist_air_density(fixed(20.0), fixed(0.0075), p), Ok(1_198_727_636));
    assert_eq!(si.get_moist_air_volume(fixed(20.0), fixed(0.0075), 0), Err(InputRangeError::NonPositivePressure));
    assert_eq!(si.get_moist_air_density(fixed(20.0), fixed(200.0), p), Err(InputRangeError::OutOfScale));
    let ip = Psychrolib::new(UnitSystem::IP);
    assert_eq!(ip.get_moist_air_volume(fixed(70.0), fixed(0.01), fixed(14.696)), Ok(13_567_675_878));
}

#[test]
fn wet_bulb_of_moderate_air() {
    let si = Psychrolib::new(UnitSystem::SI);
    let (t, probes) = wet_bulb(&si, fixed(20.0), fixed(0.0075), fixed(101325.0));
    let t = t.unwrap();
    assert!(t >= fixed(12.0) && t <= fixed(15.0));
    assert!(probes < MAX_ITER_COUNT);
    let target = fixed(0.0075);
    let lo = get_hum_ratio_from_vap_pres(sat_pressure(&si, t - TOLERANCE_SI), fixed(101325.0)).unwrap();
    let r_lo = si.wet_bulb_residual(fixed(20.0), t - TOLERANCE_SI, lo, target).unwrap();
    let hi = get_hum_ratio_from_vap_pres(sat_pressure(&si, t + TOLERANCE_SI), fixed(101325.0)).unwrap();
    let r_hi = si.wet_bulb_residual(fixed(20.0), t + TOLERANCE_SI, hi, target).unwrap();
    assert!(r_lo <= 0 && r_hi >= 0);
}

#[test]
fn wet_bulb_of_saturated_air() {
    let si = Psychrolib::new(UnitSystem::SI);
    let p = fixed(101325.0);
    let vp = get_vap_pres_from_rel_hum(SCALE, sat_pressure(&si, fixed(25.0))).unwrap();
    let w = get_hum_ratio_from_vap_pres(vp, p).unwrap();
    let (t, probes) = wet_bulb(&si, fixed(25.0), w, p);
    assert_eq!(t, Ok(fixed(25.0)));
    assert_eq!(probes, 1);
}

#[test]
fn wet_bulb_of_saturated_air_over_ice_ip() {
    let ip = Psychrolib::new(UnitSystem::IP);
    let p = fixed(14.696);
    let vp = get_vap_pres_from_rel_hum(SCALE, sat_pressure(&ip, fixed(20.0))).unwrap();
    let w = get_hum_ratio_from_vap_pres(vp, p).unwrap();
    let (t, probes) = wet_bulb(&ip, fixed(20.0), w, p);
    assert_eq!(t, Ok(fixed(20.0)));
    assert_eq!(probes, 1);
}

#[test]
fn wet_bulb_unreachable_target_fails() {
    let si = Psychrolib::new(UnitSystem::SI);
    let (t, probes) = wet_bulb(&si, fixed(20.0), fixed(0.05), fixed(101325.0));
    let e = t.unwrap_err();
    assert_eq!(e.iterations, MAX_ITER_COUNT);
    assert_eq!(probes, MAX_ITER_COUNT);
    assert!(e.residual < 0);
}

#[test]
fn wet_bulb_below_dry_bulb_ip() {
    let ip = Psychrolib::new(UnitSystem::IP);
    let (t, _) = wet_bulb(&ip, fixed(77.0), fixed(0.0063), fixed(14.696));
    let t = t.unwrap();
    assert!(t < fixed(77.0));
    assert!(t > fixed(55.0) && t < fixed(65.0));
}

#[test]
fn wet_bulb_bracket_errors() {
    let si = Psychrolib::new(UnitSystem::SI);
    assert_eq!(si.wet_bulb_bracket(fixed(20.0), 0).unwrap_err(), InputRangeError::NonPositivePressure);
    assert_eq!(si.wet_bulb_bracket(fixed(250.0), 1).unwrap_err(), InputRangeError::OutsideCorrelationRange);
    assert_eq!(si.wet_bulb_residual(fixed(20.0), fixed(21.0), 1, 1), Err(InputRangeError::OutsideCorrelationRange));
}

#[test]
fn dew_point_values() {
    let si = Psychrolib::new(UnitSystem::SI);
    let sat = sat_pressure(&si, fixed(25.0));
    assert_eq!(dew_point(&si, fixed(25.0), sat), Ok(fixed(25.0)));
    let half = get_vap_pres_from_rel_hum(500_000_000, sat).unwrap();
    let t = dew_point(&si, fixed(25.0), half).unwrap();
    assert!(t > fixed(13.0) && t < fixed(14.5));
    assert_eq!(
        si.dew_point_bracket(fixed(25.0), sat + 1, sat).unwrap_err(),
        InputRangeError::AboveSaturation
    );
    assert_eq!(si.dew_point_bracket(fixed(25.0), -1, sat).unwrap_err(), InputRangeError::NegativeVaporPressure);
}

#[test]
fn one_sided_residuals_exhaust_probes() {
    let si = Psychrolib::new(UnitSystem::SI);
    let mut b = si.wet_bulb_bracket(fixed(20.0), fixed(101325.0)).unwrap();
    let mut steps: u64 = 0;
    let failed = loop {
        steps += 1;
        match b.step(7) {
            Outcome::Next(n) => b = n,
            Outcome::Converged(t) => panic!("converged at {}", t),
            Outcome::Failed(e) => break e,
        }
    };
    assert_eq!(steps, MAX_ITER_COUNT);
    assert_eq!(failed.low, fixed(-100.0));
    assert_eq!(failed.high, fixed(-100.0));
    assert_eq!(failed.residual, 7);
}

#[test]
fn first_probe_is_upper_end() {
    let si = Psychrolib::new(UnitSystem::SI);
    let b = si.wet_bulb_bracket(fixed(20.0), fixed(101325.0)).unwrap();
    assert_eq!(b.candidate(), fixed(20.0));
    match b.step(0) {
        Outcome::Converged(t) => assert_eq!(t, fixed(20.0)),
        _ => panic!("expected convergence"),
    }
    match b.step(5) {
        Outcome::Next(n) => assert_eq!(n.candidate(), fixed(-40.0)),
        _ => panic!("expected another probe"),
    }
}
