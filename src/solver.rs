use vstd::prelude::*;
use crate::limits::{
    InputRangeError, branch_of, in_correlation_range, measurement_check, min_temp_of,
    vapor_pressure_check, check_vapor_pressure,
};
use crate::humidity::floored;
use crate::units::{Psychrolib, UnitSystem, tolerance_of};
use crate::wet_bulb::wet_bulb_residual_of;

verus! {

/// Most probes a solver makes before it gives up.
pub const MAX_ITER_COUNT: u64 = 100;

/// Largest magnitude of a bracket end (1000 units).
pub const BRACKET_LIMIT: i64 = 1_000_000_000_000;

/// A solver that ran out of probes. It carries the last estimate, the last
/// residual and the bracket it had narrowed to.
#[derive(PartialEq, Eq, Structural, Debug, Clone, Copy)]
pub struct ConvergenceError {
    pub estimate: i64,
    pub residual: i64,
    pub low: i64,
    pub high: i64,
    pub iterations: u64,
}

/// What a bracket holds: the search interval it started with, the interval
/// it has narrowed to, the convergence tolerance, the probes made so far and
/// whether a probe has fallen on each side of the root.
pub struct BracketView {
    pub lower_bound: i64,
    pub upper_bound: i64,
    pub low: i64,
    pub high: i64,
    pub tolerance: i64,
    pub iterations: u64,
    pub below_seen: bool,
    pub above_seen: bool,
}

/// The state of a bisection over an increasing function. The caller
/// evaluates the function at `candidate()`, hands the signed residual
/// (value minus target) to `step`, and repeats while `step` says `Next`.
#[derive(Debug, Clone, Copy)]
pub struct Bracket {
    lower_bound: i64,
    upper_bound: i64,
    low: i64,
    high: i64,
    tolerance: i64,
    iterations: u64,
    below_seen: bool,
    above_seen: bool,
}

/// Where one step of a bracket leads.
#[derive(Debug)]
pub enum Outcome {
    Next(Bracket),
    Converged(i64),
    Failed(ConvergenceError),
}

/// Where one step of a bracket leads, over the bracket's view.
pub enum StepView {
    Next(BracketView),
    Converged(i64),
    Failed(ConvergenceError),
}

pub open spec fn bracket_ok(v: BracketView) -> bool {
    &&& -BRACKET_LIMIT <= v.lower_bound <= v.low <= v.high <= v.upper_bound <= BRACKET_LIMIT
    &&& 0 <= v.tolerance
    &&& v.iterations < MAX_ITER_COUNT
}

pub open spec fn midpoint(v: BracketView) -> i64 {
    (v.low + (v.high - v.low) / 2) as i64
}

/// The first probe is the upper end; every later one halves the bracket.
pub open spec fn candidate_of(v: BracketView) -> i64 {
    if v.iterations == 0 {
        v.high
    } else {
        midpoint(v)
    }
}

/// The bracket after a nonzero residual at the candidate: a positive one
/// puts the root below the candidate, a negative one above it.
pub open spec fn narrowed(v: BracketView, residual: i64) -> BracketView {
    let c = candidate_of(v);
    if residual > 0 {
        BracketView {
            lower_bound: v.lower_bound,
            upper_bound: v.upper_bound,
            low: v.low,
            high: c,
            tolerance: v.tolerance,
            iterations: (v.iterations + 1) as u64,
            below_seen: v.below_seen,
            above_seen: true,
        }
    } else {
        BracketView {
            lower_bound: v.lower_bound,
            upper_bound: v.upper_bound,
            low: c,
            high: v.high,
            tolerance: v.tolerance,
            iterations: (v.iterations + 1) as u64,
            below_seen: true,
            above_seen: v.above_seen,
        }
    }
}

/// The root is known to lie in the bracket (a probe fell on each side)
/// and the bracket is no wider than the tolerance.
pub open spec fn settled(v: BracketView) -> bool {
    v.below_seen && v.above_seen && v.high - v.low <= v.tolerance
}

/// One step: a zero residual ends the search at the candidate; otherwise
/// the bracket narrows, and the search ends once it is settled, fails once
/// the probes run out, and leads on to the next probe else.
pub open spec fn step_result(v: BracketView, residual: i64) -> StepView {
    if residual == 0 {
        StepView::Converged(candidate_of(v))
    } else {
        let n = narrowed(v, residual);
        if settled(n) {
            StepView::Converged(midpoint(n))
        } else if n.iterations >= MAX_ITER_COUNT {
            StepView::Failed(
                ConvergenceError {
                    estimate: midpoint(n),
                    residual,
                    low: n.low,
                    high: n.high,
                    iterations: n.iterations,
                },
            )
        } else {
            StepView::Next(n)
        }
    }
}

/// Where a bracket ends when every residual is `f` at the candidate, after
/// at most `fuel` steps.
pub open spec fn drive(v: BracketView, f: spec_fn(i64) -> i64, fuel: nat) -> StepView
    decreases fuel,
{
    if fuel == 0 {
        StepView::Next(v)
    } else {
        match step_result(v, f(candidate_of(v))) {
            StepView::Next(n) => drive(n, f, (fuel - 1) as nat),
            other => other,
        }
    }
}

/// What the bracket has learnt of `f` at its upper end: it only stands on
/// the upper end from a side that `f` showed there.
pub open spec fn upper_end_known(v: BracketView, f: spec_fn(i64) -> i64) -> bool {
    &&& (v.above_seen && v.high == v.upper_bound ==> f(v.upper_bound) > 0)
    &&& (v.below_seen && v.low == v.upper_bound ==> f(v.upper_bound) < 0)
}

/// A bracket over `[lower, upper]` before its first probe.
pub open spec fn fresh_bracket(lower: i64, upper: i64, tolerance: i64) -> BracketView {
    BracketView {
        lower_bound: lower,
        upper_bound: upper,
        low: lower,
        high: upper,
        tolerance,
        iterations: 0,
        below_seen: false,
        above_seen: false,
    }
}

/// Where the wet-bulb and dew-point searches start: from the lowest
/// temperature of the correlations up to the dry-bulb temperature, with the
/// tolerance of the unit system.
pub open spec fn solver_start(u: UnitSystem, dry_bulb: i64) -> BracketView {
    fresh_bracket(min_temp_of(u), dry_bulb, tolerance_of(u) as i64)
}

impl View for Bracket {
    type V = BracketView;

    closed spec fn view(&self) -> BracketView {
        BracketView {
            lower_bound: self.lower_bound,
            upper_bound: self.upper_bound,
            low: self.low,
            high: self.high,
            tolerance: self.tolerance,
            iterations: self.iterations,
            below_seen: self.below_seen,
            above_seen: self.above_seen,
        }
    }
}

impl Outcome {
    pub open spec fn view(self) -> StepView {
        match self {
            Outcome::Next(b) => StepView::Next(b@),
            Outcome::Converged(t) => StepView::Converged(t),
            Outcome::Failed(e) => StepView::Failed(e),
        }
    }
}

impl Bracket {
    #[verifier::type_invariant]
    spec fn ordered(self) -> bool {
        bracket_ok(self@)
    }

    /// A fresh bracket over `[lower, upper]`.
    pub(crate) fn new(lower: i64, upper: i64, tolerance: i64) -> (r: Bracket)
        requires
            -BRACKET_LIMIT <= lower <= upper <= BRACKET_LIMIT,
            0 <= tolerance,
        ensures
            r@ == fresh_bracket(lower, upper, tolerance),
    {
        Bracket {
            lower_bound: lower,
            upper_bound: upper,
            low: lower,
            high: upper,
            tolerance,
            iterations: 0,
            below_seen: false,
            above_seen: false,
        }
    }

    /// The point at which the caller evaluates the residual next.
    pub fn candidate(&self) -> (r: i64)
        ensures
            r == candidate_of(self@),
            self@.low <= r <= self@.high,
    {
        proof {
            use_type_invariant(self);
        }
        if self.iterations == 0 {
            self.high
        } else {
            self.low + (self.high - self.low) / 2
        }
    }

    /// Narrows the bracket by the residual found at `candidate()`.
    pub fn step(&self, residual: i64) -> (r: Outcome)
        ensures
            r.view() == step_result(self@, residual),
    {
        proof {
            use_type_invariant(self);
        }
        let c = self.candidate();
        if residual == 0 {
            return Outcome::Converged(c);
        }
        let iterations = self.iterations + 1;
        let (low, high, below_seen, above_seen) = if residual > 0 {
            (self.low, c, self.below_seen, true)
        } else {
            (c, self.high, true, self.above_seen)
        };
        let mid = low + (high - low) / 2;
        if below_seen && above_seen && high - low <= self.tolerance {
            Outcome::Converged(mid)
        } else if iterations >= MAX_ITER_COUNT {
            Outcome::Failed(ConvergenceError { estimate: mid, residual, low, high, iterations })
        } else {
            Outcome::Next(
                Bracket {
                    lower_bound: self.lower_bound,
                    upper_bound: self.upper_bound,
                    low,
                    high,
                    tolerance: self.tolerance,
                    iterations,
                    below_seen,
                    above_seen,
                },
            )
        }
    }
}

impl Psychrolib {
    /// The bracket of a wet-bulb search at `dry_bulb` and `pressure`: the
    /// residual is the humidity ratio that the adiabatic-saturation balance
    /// implies at the candidate minus the target humidity ratio.
    pub fn wet_bulb_bracket(&self, dry_bulb: i64, pressure: i64) -> (r: Result<
        Bracket,
        InputRangeError,
    >)
        ensures
            measurement_check(self.system(), dry_bulb as int, pressure as int) is Err ==> r is Err
                && r->Err_0 == measurement_check(
                self.system(),
                dry_bulb as int,
                pressure as int,
            )->Err_0,
            measurement_check(self.system(), dry_bulb as int, pressure as int) is Ok
                && !in_correlation_range(self.system(), dry_bulb as int) ==> r is Err && r->Err_0
                == InputRangeError::OutsideCorrelationRange,
            measurement_check(self.system(), dry_bulb as int, pressure as int) is Ok
                && in_correlation_range(self.system(), dry_bulb as int) ==> r is Ok && r->Ok_0@
                == solver_start(self.system(), dry_bulb),
    {
        match self.check_measurement(dry_bulb, pressure) {
            Err(e) => Err(e),
            Ok(()) => match self.saturation_branch(dry_bulb) {
                Err(e) => Err(e),
                Ok(_) => Ok(Bracket::new(self.min_temperature(), dry_bulb, self.tolerance())),
            },
        }
    }

    /// The bracket of a dew-point search for `vapor_pressure` at
    /// `dry_bulb`, where `saturation` is the saturation pressure at
    /// `dry_bulb`: the residual is the saturation pressure at the candidate
    /// minus `vapor_pressure`.
    pub fn dew_point_bracket(&self, dry_bulb: i64, vapor_pressure: i64, saturation: i64) -> (r:
        Result<Bracket, InputRangeError>)
        ensures
            !in_correlation_range(self.system(), dry_bulb as int) ==> r is Err && r->Err_0
                == InputRangeError::OutsideCorrelationRange,
            in_correlation_range(self.system(), dry_bulb as int) && vapor_pressure_check(
                vapor_pressure as int,
                saturation as int,
            ) is Err ==> r is Err && r->Err_0 == vapor_pressure_check(
                vapor_pressure as int,
                saturation as int,
            )->Err_0,
            in_correlation_range(self.system(), dry_bulb as int) && vapor_pressure_check(
                vapor_pressure as int,
                saturation as int,
            ) is Ok ==> r is Ok && r->Ok_0@ == solver_start(self.system(), dry_bulb),
    {
        match self.saturation_branch(dry_bulb) {
            Err(e) => Err(e),
            Ok(_) => match check_vapor_pressure(vapor_pressure, saturation) {
                Err(e) => Err(e),
                Ok(()) => Ok(Bracket::new(self.min_temperature(), dry_bulb, self.tolerance())),
            },
        }
    }
}

/// Whatever the residual function, a bracket never leaves the interval it
/// started with: every estimate it converges to or fails with lies in it.
pub proof fn lemma_drive_stays_in_bracket(v: BracketView, f: spec_fn(i64) -> i64, fuel: nat)
    requires
        bracket_ok(v),
    ensures
        match drive(v, f, fuel) {
            StepView::Next(n) => bracket_ok(n) && n.lower_bound == v.lower_bound
                && n.upper_bound == v.upper_bound,
            StepView::Converged(t) => v.lower_bound <= t <= v.upper_bound,
            StepView::Failed(e) => v.lower_bound <= e.estimate <= v.upper_bound,
        },
    decreases fuel,
{
    if fuel > 0 {
        if let StepView::Next(n) = step_result(v, f(candidate_of(v))) {
            lemma_drive_stays_in_bracket(n, f, (fuel - 1) as nat);
        }
    }
}

/// A bracket converges to its upper end only where the residual function
/// vanishes there.
pub proof fn lemma_drive_upper_end(v: BracketView, f: spec_fn(i64) -> i64, fuel: nat)
    requires
        bracket_ok(v),
        upper_end_known(v, f),
    ensures
        drive(v, f, fuel) == StepView::Converged(v.upper_bound) ==> f(v.upper_bound) == 0,
    decreases fuel,
{
    if fuel > 0 {
        let r = f(candidate_of(v));
        if r != 0 {
            let n = narrowed(v, r);
            assert(upper_end_known(n, f));
            if settled(n) {
                if midpoint(n) == v.upper_bound {
                    assert(n.low == n.high);
                }
            } else if n.iterations < MAX_ITER_COUNT {
                lemma_drive_upper_end(n, f, (fuel - 1) as nat);
            }
        }
    }
}

/// A fresh bracket converges to its upper end exactly where the residual
/// function vanishes there, and then at its first probe.
pub proof fn lemma_fresh_drive_upper_end(v: BracketView, f: spec_fn(i64) -> i64, fuel: nat)
    requires
        bracket_ok(v),
        v.iterations == 0,
        !v.below_seen,
        !v.above_seen,
        v.high == v.upper_bound,
        fuel >= 1,
    ensures
        drive(v, f, fuel) == StepView::Converged(v.upper_bound) <==> f(v.upper_bound) == 0,
{
    lemma_drive_upper_end(v, f, fuel);
}

/// A residual function that keeps one sign over the whole bracket (no root
/// in it) makes the bracket fail with a convergence error once the probes
/// run out, never converge to an estimate clamped to one of its ends.
pub proof fn lemma_one_sided_drive_fails(v: BracketView, f: spec_fn(i64) -> i64, fuel: nat)
    requires
        bracket_ok(v),
        fuel >= MAX_ITER_COUNT - v.iterations,
        ((forall|t: i64| v.lower_bound <= t <= v.upper_bound ==> #[trigger] f(t) > 0)
            && !v.below_seen) || ((forall|t: i64|
            v.lower_bound <= t <= v.upper_bound ==> #[trigger] f(t) < 0) && !v.above_seen),
    ensures
        drive(v, f, fuel) is Failed,
    decreases fuel,
{
    let n = narrowed(v, f(candidate_of(v)));
    if n.iterations < MAX_ITER_COUNT {
        lemma_one_sided_drive_fails(n, f, (fuel - 1) as nat);
    }
}

/// The residual of a wet-bulb probe at `t`, where `sat_w_of(t)` is the
/// saturation humidity ratio at `t`.
pub open spec fn wet_bulb_residual_fn(
    u: UnitSystem,
    dry_bulb: i64,
    sat_w_of: spec_fn(i64) -> i64,
    target: i64,
) -> spec_fn(i64) -> i64 {
    |t: i64| wet_bulb_residual_of(u, dry_bulb as int, t as int, sat_w_of(t) as int, target as int) as i64
}

/// The residual of a dew-point probe at `t`, where `sat_of(t)` is the
/// saturation pressure at `t`.
pub open spec fn dew_point_residual_fn(sat_of: spec_fn(i64) -> i64, vapor_pressure: i64) -> spec_fn(
    i64,
) -> i64 {
    |t: i64| (sat_of(t) - vapor_pressure) as i64
}

/// The wet-bulb temperature is never above the dry-bulb temperature, and
/// equals it exactly when the air is saturated: its humidity ratio is the
/// saturation humidity ratio at the dry-bulb temperature.
pub proof fn lemma_wet_bulb_not_above_dry_bulb(
    u: UnitSystem,
    dry_bulb: i64,
    sat_w_of: spec_fn(i64) -> i64,
    target: i64,
    fuel: nat,
)
    requires
        in_correlation_range(u, dry_bulb as int),
        fuel >= 1,
    ensures
        drive(solver_start(u, dry_bulb), wet_bulb_residual_fn(u, dry_bulb, sat_w_of, target), fuel)
            is Converged ==> drive(
            solver_start(u, dry_bulb),
            wet_bulb_residual_fn(u, dry_bulb, sat_w_of, target),
            fuel,
        )->Converged_0 <= dry_bulb,
        drive(solver_start(u, dry_bulb), wet_bulb_residual_fn(u, dry_bulb, sat_w_of, target), fuel)
            == StepView::Converged(dry_bulb) <==> floored(target as int) == floored(
            sat_w_of(dry_bulb) as int,
        ),
{
    let f = wet_bulb_residual_fn(u, dry_bulb, sat_w_of, target);
    lemma_drive_stays_in_bracket(solver_start(u, dry_bulb), f, fuel);
    lemma_fresh_drive_upper_end(solver_start(u, dry_bulb), f, fuel);
}

/// The dew-point temperature is never above the dry-bulb temperature, and
/// equals it exactly when the vapor pressure is the saturation pressure at
/// the dry-bulb temperature.
pub proof fn lemma_dew_point_not_above_dry_bulb(
    u: UnitSystem,
    dry_bulb: i64,
    sat_of: spec_fn(i64) -> i64,
    vapor_pressure: i64,
    fuel: nat,
)
    requires
        in_correlation_range(u, dry_bulb as int),
        vapor_pressure_check(vapor_pressure as int, sat_of(dry_bulb) as int) is Ok,
        fuel >= 1,
    ensures
        drive(solver_start(u, dry_bulb), dew_point_residual_fn(sat_of, vapor_pressure), fuel)
            is Converged ==> drive(
            solver_start(u, dry_bulb),
            dew_point_residual_fn(sat_of, vapor_pressure),
            fuel,
        )->Converged_0 <= dry_bulb,
        drive(solver_start(u, dry_bulb), dew_point_residual_fn(sat_of, vapor_pressure), fuel)
            == StepView::Converged(dry_bulb) <==> vapor_pressure == sat_of(dry_bulb),
{
    let f = dew_point_residual_fn(sat_of, vapor_pressure);
    lemma_drive_stays_in_bracket(solver_start(u, dry_bulb), f, fuel);
    lemma_fresh_drive_upper_end(solver_start(u, dry_bulb), f, fuel);
}

/// A target that no temperature of the bracket reaches (the residual keeps
/// one sign over the whole bracket) makes a wet-bulb or dew-point search
/// fail with a convergence error after `MAX_ITER_COUNT` probes.
pub proof fn lemma_unreachable_target_fails(
    u: UnitSystem,
    dry_bulb: i64,
    f: spec_fn(i64) -> i64,
    fuel: nat,
)
    requires
        in_correlation_range(u, dry_bulb as int),
        fuel >= MAX_ITER_COUNT,
        (forall|t: i64| min_temp_of(u) <= t <= dry_bulb ==> #[trigger] f(t) > 0) || (forall|t: i64|
            min_temp_of(u) <= t <= dry_bulb ==> #[trigger] f(t) < 0),
    ensures
        drive(solver_start(u, dry_bulb), f, fuel) is Failed,
{
    lemma_one_sided_drive_fails(solver_start(u, dry_bulb), f, fuel);
}

} // verus!
