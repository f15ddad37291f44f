//! The existence-only rule (Wujudul Hilal): the conjunction happened
//! before local sunset and the moon stands above the horizon at sunset.

use vstd::prelude::*;

verus! {

/// First component: conjunction strictly before the sunset instant.
pub open spec fn ijtimak_before_maghrib(conjunction_jd_ms: int, sunset_jd_ms: int) -> bool {
    conjunction_jd_ms < sunset_jd_ms
}

/// Second component: moon centre above the horizon.
pub open spec fn moon_above_horizon(moon_altitude_udeg: int) -> bool {
    moon_altitude_udeg > 0
}

/// The rule's verdict is exactly the conjunction of its components.
pub open spec fn wujudul_hilal_visible(
    conjunction_jd_ms: int,
    sunset_jd_ms: int,
    moon_altitude_udeg: int,
) -> bool {
    ijtimak_before_maghrib(conjunction_jd_ms, sunset_jd_ms) && moon_above_horizon(
        moon_altitude_udeg,
    )
}

/// Verdict of the existence-only rule with its two component outcomes.
pub struct WujudulHilalResult {
    pub is_visible: bool,
    pub ijtimak_before_maghrib: bool,
    pub moon_above_horizon: bool,
    /// Topocentric moon altitude at sunset, microdegrees.
    pub moon_altitude_udeg: i64,
}

/// Evaluate the existence-only rule from the conjunction and sunset
/// instants (Julian Day milliseconds) and the sunset moon altitude.
pub fn evaluate_wujudul_hilal(
    conjunction_jd_ms: i64,
    sunset_jd_ms: i64,
    moon_altitude_udeg: i64,
) -> (r: WujudulHilalResult)
    ensures
        r.ijtimak_before_maghrib == ijtimak_before_maghrib(
            conjunction_jd_ms as int,
            sunset_jd_ms as int,
        ),
        r.moon_above_horizon == moon_above_horizon(moon_altitude_udeg as int),
        r.moon_altitude_udeg == moon_altitude_udeg,
        r.is_visible == (r.ijtimak_before_maghrib && r.moon_above_horizon),
        r.is_visible == wujudul_hilal_visible(
            conjunction_jd_ms as int,
            sunset_jd_ms as int,
            moon_altitude_udeg as int,
        ),
{
    let before = conjunction_jd_ms < sunset_jd_ms;
    let above = moon_altitude_udeg > 0;
    WujudulHilalResult {
        is_visible: before && above,
        ijtimak_before_maghrib: before,
        moon_above_horizon: above,
        moon_altitude_udeg,
    }
}

} // verus!
