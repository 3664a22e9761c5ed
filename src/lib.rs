//! Psychrometric properties of moist air: unit-system context, input
//! validation, humidity-ratio conversions and the bracketed solvers behind
//! the wet-bulb and dew-point temperatures.
//!
//! Every quantity is a fixed-point integer counted in units of
//! `SCALE`-ths (10^-9) of its unit in the active system: degrees C or F,
//! Pa or psi, kg/kg or lb/lb.

pub mod units;
pub mod limits;
pub mod humidity;
pub mod solver;
pub mod properties;
pub mod wet_bulb;
