//! The strict regional rule (Turkey/Diyanet 2016): moon altitude at least
//! 5° and elongation at least 8°.

use vstd::prelude::*;

verus! {

/// Altitude component: at least 5°.
pub open spec fn turkey_altitude_ok(altitude_udeg: int) -> bool {
    altitude_udeg >= 5_000_000
}

/// Elongation component: at least 8°.
pub open spec fn turkey_elongation_ok(elongation_udeg: int) -> bool {
    elongation_udeg >= 8_000_000
}

/// The rule's verdict is exactly the conjunction of its components.
pub open spec fn turkey_visible(altitude_udeg: int, elongation_udeg: int) -> bool {
    turkey_altitude_ok(altitude_udeg) && turkey_elongation_ok(elongation_udeg)
}

/// Verdict of the Diyanet rule together with the measures and component
/// outcomes it compared.
pub struct TurkeyResult {
    pub is_visible: bool,
    /// Moon altitude at sunset, microdegrees.
    pub moon_altitude_udeg: i64,
    /// Elongation at sunset, microdegrees.
    pub elongation_udeg: i64,
    pub altitude_ok: bool,
    pub elongation_ok: bool,
}

/// Evaluate the Diyanet rule on the altitude and elongation measured in
/// the caller's chosen frame (topocentric by convention).
pub fn evaluate_turkey(moon_altitude_udeg: i64, elongation_udeg: i64) -> (r: TurkeyResult)
    ensures
        r.moon_altitude_udeg == moon_altitude_udeg,
        r.elongation_udeg == elongation_udeg,
        r.altitude_ok == turkey_altitude_ok(moon_altitude_udeg as int),
        r.elongation_ok == turkey_elongation_ok(elongation_udeg as int),
        r.is_visible == (r.altitude_ok && r.elongation_ok),
{
    let altitude_ok = moon_altitude_udeg >= 5_000_000;
    let elongation_ok = elongation_udeg >= 8_000_000;
    TurkeyResult {
        is_visible: altitude_ok && elongation_ok,
        moon_altitude_udeg,
        elongation_udeg,
        altitude_ok,
        elongation_ok,
    }
}

} // verus!
