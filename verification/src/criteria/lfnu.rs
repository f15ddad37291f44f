//! The LFNU rule (Lembaga Falakiyah Nahdlatul Ulama): moon altitude at
//! least 2° and elongation at least 3°, both topocentric.

use vstd::prelude::*;

verus! {

/// Altitude component: at least 2°.
pub open spec fn lfnu_altitude_ok(altitude_udeg: int) -> bool {
    altitude_udeg >= 2_000_000
}

/// Elongation component: at least 3°.
pub open spec fn lfnu_elongation_ok(elongation_udeg: int) -> bool {
    elongation_udeg >= 3_000_000
}

/// The rule's verdict is exactly the conjunction of its components.
pub open spec fn lfnu_visible(altitude_udeg: int, elongation_udeg: int) -> bool {
    lfnu_altitude_ok(altitude_udeg) && lfnu_elongation_ok(elongation_udeg)
}

/// Verdict of the LFNU rule together with the measures and component
/// outcomes it compared.
pub struct LfnuResult {
    pub is_visible: bool,
    /// Topocentric moon altitude at sunset, microdegrees.
    pub moon_altitude_udeg: i64,
    /// Topocentric elongation at sunset, microdegrees.
    pub elongation_udeg: i64,
    pub altitude_ok: bool,
    pub elongation_ok: bool,
}

/// Evaluate the LFNU rule on the topocentric sunset measures.
pub fn evaluate_lfnu(moon_altitude_udeg: i64, elongation_udeg: i64) -> (r: LfnuResult)
    ensures
        r.moon_altitude_udeg == moon_altitude_udeg,
        r.elongation_udeg == elongation_udeg,
        r.altitude_ok == lfnu_altitude_ok(moon_altitude_udeg as int),
        r.elongation_ok == lfnu_elongation_ok(elongation_udeg as int),
        r.is_visible == (r.altitude_ok && r.elongation_ok),
{
    let altitude_ok = moon_altitude_udeg >= 2_000_000;
    let elongation_ok = elongation_udeg >= 3_000_000;
    LfnuResult {
        is_visible: altitude_ok && elongation_ok,
        moon_altitude_udeg,
        elongation_udeg,
        altitude_ok,
        elongation_ok,
    }
}

} // verus!
