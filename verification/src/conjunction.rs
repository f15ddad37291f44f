//! Conjunction (new moon) solving: the initial estimate, the
//! Newton-Raphson step, the stopping rule, and the acceptance test that
//! separates a converged conjunction from a failed search.
//!
//! The surrounding loop evaluates the lunar and solar longitudes at each
//! candidate instant and hands their difference (and its finite-difference
//! derivative) back; every decision taken on those values is made here.

use crate::calendar::julian::{jdn_to_gregorian, spec_jdn_to_gregorian};
use vstd::prelude::*;

verus! {

/// Mean synodic month, centidays (29.53 days).
pub const LUNAR_MONTH_CENTIDAYS: i64 = 2953;

/// Mean synodic month, milliseconds.
pub const LUNAR_MONTH_MS: i64 = 2_551_392_000;

/// A solved conjunction: the instant, its calendar date, and the
/// elongation remaining there.
#[derive(Clone, Copy, Debug, PartialEq, Eq, Structural)]
pub struct Conjunction {
    /// Conjunction instant, Julian Day milliseconds (universal time).
    pub jd_utc_ms: i64,
    pub year: i32,
    pub month: u8,
    pub day: u8,
    /// Elongation at the instant, nanodegrees.
    pub elongation_ndeg: i64,
}

impl Conjunction {
    /// The calendar date the record carries.
    pub fn to_gregorian_date(&self) -> (r: crate::calendar::julian::GregorianDate)
        ensures
            r.year == self.year,
            r.month == self.month,
            r.day == self.day,
    {
        crate::calendar::julian::GregorianDate { year: self.year, month: self.month, day: self.day }
    }

    /// Build a conjunction record at an instant, dating it by the civil
    /// day the instant falls in.
    pub fn from_jd(jd_ms: i64, elongation_ndeg: i64) -> (r: Conjunction)
        requires
            148_740_000_000_000 <= jd_ms <= 464_200_000_000_000,
        ensures
            r.jd_utc_ms == jd_ms,
            r.elongation_ndeg == elongation_ndeg,
            ({
                let d = spec_jdn_to_gregorian((jd_ms + 43_200_000) / 86_400_000);
                r.year == d.year && r.month == d.month && r.day == d.day
            }),
    {
        let jdn: i64 = (jd_ms + 43_200_000) / 86_400_000;
        let d = jdn_to_gregorian(jdn);
        Conjunction {
            jd_utc_ms: jd_ms,
            year: d.year,
            month: d.month,
            day: d.day,
            elongation_ndeg,
        }
    }
}

/// Estimate of the previous conjunction: the current phase fraction
/// (millionths of a synodic cycle, 0 at new moon) times the mean month,
/// subtracted from the instant.
pub open spec fn spec_previous_conjunction_estimate(jd_ms: int, phase_millionths: int) -> int {
    jd_ms - phase_millionths * 2_551_392 / 1_000
}

/// Walk back from an instant to the estimated previous new moon, given
/// the phase fraction the ephemeris reports there.
pub fn estimate_conjunction_time(jd_ms: i64, phase_millionths: i64) -> (r: i64)
    requires
        0 <= jd_ms <= 864_000_000_000_000,
        0 <= phase_millionths <= 1_000_000,
    ensures
        r == spec_previous_conjunction_estimate(jd_ms as int, phase_millionths as int),
        jd_ms - 2_551_392_000 <= r <= jd_ms,
{
    let back_ms: i64 = phase_millionths * (LUNAR_MONTH_MS / 1_000) / 1_000;
    jd_ms - back_ms
}

/// Bounds and tolerances of the refinement loop.
#[derive(Clone, Copy, Debug, PartialEq, Eq, Structural)]
pub struct RefinementConfig {
    pub max_iterations: usize,
    /// Step-size tolerance, milliseconds (864 ms is 1e-5 day).
    pub tolerance_ms: i64,
}

impl Default for RefinementConfig {
    /// Ten iterations at most, convergence below 1e-5 day.
    fn default() -> (r: Self)
        ensures
            r.max_iterations == 10,
            r.tolerance_ms == 864,
    {
        RefinementConfig { max_iterations: 10, tolerance_ms: 864 }
    }
}

/// The refinement loop stops when the longitude-difference derivative
/// vanishes at the solver's resolution or the iteration cap is reached.
pub open spec fn spec_should_stop(
    derivative_udeg_per_day: int,
    iterations: int,
    max_iterations: int,
) -> bool {
    derivative_udeg_per_day == 0 || iterations >= max_iterations
}

/// Stopping rule of the refinement loop.
pub fn should_stop(derivative_udeg_per_day: i64, iterations: usize, config: &RefinementConfig) -> (r:
    bool)
    ensures
        r == spec_should_stop(
            derivative_udeg_per_day as int,
            iterations as int,
            config.max_iterations as int,
        ),
{
    derivative_udeg_per_day == 0 || iterations >= config.max_iterations
}

/// Division truncated toward zero, the rounding the solver's step uses.
pub open spec fn spec_trunc_div(a: int, b: int) -> int {
    let q: int = (if a < 0 {
        -a
    } else {
        a
    }) / (if b < 0 {
        -b
    } else {
        b
    });
    if (a < 0) == (b < 0) {
        q
    } else {
        -q
    }
}

/// One Newton-Raphson step of the conjunction refinement.
///
/// From the longitude difference `f` (microdegrees, normalized to
/// (-180°, 180°]) and its finite-difference derivative (microdegrees per
/// day), the candidate moves by `-f / f'` converted to milliseconds; the
/// step also reports whether it moved less than the tolerance.
pub fn refine_step(
    jd_ms: i64,
    longitude_diff_udeg: i64,
    derivative_udeg_per_day: i64,
    config: &RefinementConfig,
) -> (r: (i64, bool))
    requires
        0 <= jd_ms <= 864_000_000_000_000,
        -180_000_000 <= longitude_diff_udeg <= 180_000_000,
        derivative_udeg_per_day != 0,
        derivative_udeg_per_day > i64::MIN,
        config.tolerance_ms >= 0,
    ensures
        r.0 == jd_ms + spec_trunc_div(
            -longitude_diff_udeg * 86_400_000,
            derivative_udeg_per_day as int,
        ),
        r.1 == (-config.tolerance_ms < r.0 - jd_ms < config.tolerance_ms),
        jd_ms - 15_552_000_000_000_000 <= r.0 <= jd_ms + 15_552_000_000_000_000,
{
    let f_ms: i64 = longitude_diff_udeg * 86_400_000;
    let (fa, neg_f): (i64, bool) = if f_ms < 0 {
        (-f_ms, true)
    } else {
        (f_ms, false)
    };
    let (da, neg_d): (i64, bool) = if derivative_udeg_per_day < 0 {
        (-derivative_udeg_per_day, true)
    } else {
        (derivative_udeg_per_day, false)
    };
    let q: i64 = fa / da;
    proof {
        assert(fa / da <= fa) by (nonlinear_arith)
            requires
                fa >= 0 && da >= 1,
        ;
    }
    // The correction is -f / f'; the sign of the quotient already folds
    // the two operand signs together.
    let correction: i64 = if neg_f == neg_d {
        -q
    } else {
        q
    };
    let next: i64 = jd_ms + correction;
    let converged = -config.tolerance_ms < correction && correction < config.tolerance_ms;
    (next, converged)
}

/// The residual longitude difference counts as a conjunction when it is
/// below one microdegree in magnitude, stated in nanodegrees.
pub open spec fn spec_residual_ok(residual_ndeg: int) -> bool {
    -1_000 < residual_ndeg < 1_000
}

/// A search outcome is accepted only when the step size converged within
/// the iteration cap and the residual is below the tolerance.
pub open spec fn spec_conjunction_accepted(step_converged: bool, residual_ndeg: int) -> bool {
    step_converged && spec_residual_ok(residual_ndeg)
}

/// Outcome of a conjunction search: a converged conjunction, or an
/// explicit failure the caller must handle.
#[derive(Clone, Copy, Debug, PartialEq, Eq, Structural)]
pub enum ConjunctionOutcome {
    Converged(Conjunction),
    NotConverged,
}

/// Close a conjunction search: accept the candidate instant only if the
/// iteration converged and the residual longitude difference (in
/// nanodegrees) is below one microdegree; otherwise report the failure
/// rather than a stale estimate.
pub fn finish_conjunction(jd_ms: i64, residual_ndeg: i64, step_converged: bool) -> (r:
    ConjunctionOutcome)
    requires
        148_740_000_000_000 <= jd_ms <= 464_200_000_000_000,
    ensures
        (r matches ConjunctionOutcome::Converged(_)) == spec_conjunction_accepted(
            step_converged,
            residual_ndeg as int,
        ),
        r matches ConjunctionOutcome::Converged(c) ==> c.jd_utc_ms == jd_ms
            && c.elongation_ndeg == residual_ndeg && spec_residual_ok(c.elongation_ndeg as int),
{
    if step_converged && -1_000 < residual_ndeg && residual_ndeg < 1_000 {
        ConjunctionOutcome::Converged(Conjunction::from_jd(jd_ms, residual_ndeg))
    } else {
        ConjunctionOutcome::NotConverged
    }
}

/// Every accepted conjunction's reported residual is far below the
/// 1e-4-degree correctness bound: acceptance at one microdegree implies
/// the residual lies strictly inside (-1e-4°, 1e-4°).
pub proof fn lemma_accepted_residual_below_bound(step_converged: bool, residual_ndeg: int)
    ensures
        spec_conjunction_accepted(step_converged, residual_ndeg) ==> -100_000 < residual_ndeg
            < 100_000,
{
}

} // verus!
