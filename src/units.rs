use vstd::prelude::*;

verus! {

/// One unit of any quantity, as a count of fixed-point steps (10^9 steps).
pub const SCALE: i64 = 1_000_000_000;

/// Zero degree Fahrenheit expressed in degree Rankine.
pub const ZERO_FAHRENHEIT_AS_RANKINE: i64 = 459_670_000_000;

/// Zero degree Celsius expressed in Kelvin.
pub const ZERO_CELSIUS_AS_KELVIN: i64 = 273_150_000_000;

/// Gas constant of dry air, IP (ft lbf / lb_da / R).
pub const R_DA_IP: i64 = 53_350_000_000;

/// Gas constant of dry air, SI (J / kg_da / K).
pub const R_DA_SI: i64 = 287_042_000_000;

/// Freezing point of water in Fahrenheit.
pub const FREEZING_POINT_WATER_IP: i64 = 32_000_000_000;

/// Freezing point of water in Celsius.
pub const FREEZING_POINT_WATER_SI: i64 = 0;

/// Triple point of water in Fahrenheit.
pub const TRIPLE_POINT_WATER_IP: i64 = 32_018_000_000;

/// Triple point of water in Celsius.
pub const TRIPLE_POINT_WATER_SI: i64 = 10_000_000;

/// Tolerance of temperature calculations in IP.
pub const TOLERANCE_IP: i64 = 45_000_000;

/// Tolerance of temperature calculations in SI.
pub const TOLERANCE_SI: i64 = 1_000_000;

/// The unit system (SI or IP) a context works in.
#[derive(PartialEq, Eq, Structural, Debug, Clone, Copy)]
pub enum UnitSystem {
    IP,
    SI,
}

pub open spec fn tolerance_of(u: UnitSystem) -> int {
    match u {
        UnitSystem::IP => TOLERANCE_IP as int,
        UnitSystem::SI => TOLERANCE_SI as int,
    }
}

pub open spec fn gas_constant_of(u: UnitSystem) -> int {
    match u {
        UnitSystem::IP => R_DA_IP as int,
        UnitSystem::SI => R_DA_SI as int,
    }
}

pub open spec fn freezing_point_of(u: UnitSystem) -> int {
    match u {
        UnitSystem::IP => FREEZING_POINT_WATER_IP as int,
        UnitSystem::SI => FREEZING_POINT_WATER_SI as int,
    }
}

pub open spec fn triple_point_of(u: UnitSystem) -> int {
    match u {
        UnitSystem::IP => TRIPLE_POINT_WATER_IP as int,
        UnitSystem::SI => TRIPLE_POINT_WATER_SI as int,
    }
}

/// The unit system of a computation together with the constants that
/// belong to it. A value never changes: switching systems makes a new one,
/// so its tolerance and gas constant always belong to the same system.
#[derive(Debug, Clone, Copy)]
pub struct Psychrolib {
    units: UnitSystem,
    tolerance: i64,
    gas_constant: i64,
    freezing_point: i64,
    triple_point: i64,
}

impl Psychrolib {
    #[verifier::type_invariant]
    spec fn matched(self) -> bool {
        &&& self.tolerance == tolerance_of(self.units)
        &&& self.gas_constant == gas_constant_of(self.units)
        &&& self.freezing_point == freezing_point_of(self.units)
        &&& self.triple_point == triple_point_of(self.units)
    }

    /// The unit system of this context.
    pub closed spec fn system(self) -> UnitSystem {
        self.units
    }

    /// A context for `units`, with the constants of that system.
    pub fn new(units: UnitSystem) -> (r: Psychrolib)
        ensures
            r.system() == units,
    {
        match units {
            UnitSystem::IP => Psychrolib {
                units,
                tolerance: TOLERANCE_IP,
                gas_constant: R_DA_IP,
                freezing_point: FREEZING_POINT_WATER_IP,
                triple_point: TRIPLE_POINT_WATER_IP,
            },
            UnitSystem::SI => Psychrolib {
                units,
                tolerance: TOLERANCE_SI,
                gas_constant: R_DA_SI,
                freezing_point: FREEZING_POINT_WATER_SI,
                triple_point: TRIPLE_POINT_WATER_SI,
            },
        }
    }

    /// The unit system in use.
    #[allow(non_snake_case)]
    pub fn GetUnitSystem(&self) -> (r: &UnitSystem)
        ensures
            *r == self.system(),
    {
        &self.units
    }

    /// Switches this context to `unit_system` by building it anew, so that
    /// every constant follows the new system.
    pub fn set_units(&mut self, unit_system: UnitSystem)
        ensures
            final(self).system() == unit_system,
    {
        *self = Psychrolib::new(unit_system);
    }

    /// A new context for `unit_system`; this one is left as it is.
    pub fn with_unit_system(&self, unit_system: UnitSystem) -> (r: Psychrolib)
        ensures
            r.system() == unit_system,
    {
        Psychrolib::new(unit_system)
    }

    /// Tolerance of temperature calculations.
    pub fn tolerance(&self) -> (r: i64)
        ensures
            r == tolerance_of(self.system()),
    {
        proof {
            use_type_invariant(self);
        }
        self.tolerance
    }

    /// Gas constant of dry air.
    pub fn gas_constant_dry_air(&self) -> (r: i64)
        ensures
            r == gas_constant_of(self.system()),
    {
        proof {
            use_type_invariant(self);
        }
        self.gas_constant
    }

    /// Freezing point of water.
    pub fn freezing_point(&self) -> (r: i64)
        ensures
            r == freezing_point_of(self.system()),
    {
        proof {
            use_type_invariant(self);
        }
        self.freezing_point
    }

    /// Triple point of water.
    pub fn triple_point(&self) -> (r: i64)
        ensures
            r == triple_point_of(self.system()),
    {
        proof {
            use_type_invariant(self);
        }
        self.triple_point
    }
}

} // verus!
