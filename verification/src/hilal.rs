//! Derived crescent parameters that are exact arithmetic on the solver
//! outputs: the moon's age at sunset and the phase angle.

use crate::conjunction::spec_trunc_div;
use vstd::prelude::*;

verus! {

/// Milliseconds of moon age per microdegree of elongation at the mean
/// synodic rate (708.734136 hours per cycle), scaled by 1e8.
pub open spec fn spec_age_from_elongation_ms(elongation_udeg: int) -> int {
    elongation_udeg * 708_734_136 / 100_000_000
}

/// The topocentric moon age, milliseconds: the elongation-rate estimate
/// blended with the geocentric age at 92 to 8, floored at zero.
pub open spec fn spec_moon_age_topocentric_ms(
    elongation_topo_udeg: int,
    geocentric_age_ms: int,
) -> int {
    let blended = spec_trunc_div(
        spec_age_from_elongation_ms(elongation_topo_udeg) * 92 + geocentric_age_ms * 8,
        100,
    );
    if blended < 0 {
        0
    } else {
        blended
    }
}

/// Blend the elongation-rate age estimate with the geocentric age into
/// the topocentric moon age (milliseconds, never negative).
pub fn moon_age_topocentric_ms(elongation_topo_udeg: i64, geocentric_age_ms: i64) -> (r: i64)
    requires
        0 <= elongation_topo_udeg <= 360_000_000,
        -1_000_000_000_000 <= geocentric_age_ms <= 1_000_000_000_000,
    ensures
        r == spec_moon_age_topocentric_ms(elongation_topo_udeg as int, geocentric_age_ms as int),
        r >= 0,
{
    let from_elong: i64 = elongation_topo_udeg * 708_734_136 / 100_000_000;
    let num: i64 = from_elong * 92 + geocentric_age_ms * 8;
    let blended: i64 = if num < 0 {
        -((-num) / 100)
    } else {
        num / 100
    };
    if blended < 0 {
        0
    } else {
        blended
    }
}

/// Moon age at sunset: the signed interval from the conjunction instant
/// to the sunset instant, milliseconds (negative when the conjunction
/// falls after sunset).
pub fn moon_age_at_sunset(sunset_jd_ms: i64, conjunction_jd_ms: i64) -> (r: i64)
    requires
        0 <= sunset_jd_ms <= 864_000_000_000_000,
        0 <= conjunction_jd_ms <= 864_000_000_000_000,
    ensures
        r == sunset_jd_ms - conjunction_jd_ms,
{
    sunset_jd_ms - conjunction_jd_ms
}

/// Phase angle from the elongation: their sum is half a turn.
pub fn calculate_phase_angle(elongation_udeg: i64) -> (r: i64)
    requires
        -360_000_000 <= elongation_udeg <= 360_000_000,
    ensures
        r == 180_000_000 - elongation_udeg,
{
    180_000_000 - elongation_udeg
}

} // verus!
