//! The global single-calendar rule (KHGT, Istanbul 2016): topocentric
//! altitude at least 5°, geocentric elongation at least 8°, and the
//! conjunction before the end of the observation day in universal time.

use vstd::prelude::*;

verus! {

/// Altitude component: at least 5°, topocentric.
pub open spec fn khgt_altitude_ok(altitude_udeg: int) -> bool {
    altitude_udeg >= 5_000_000
}

/// Elongation component: at least 8°, geocentric.
pub open spec fn khgt_elongation_ok(elongation_udeg: int) -> bool {
    elongation_udeg >= 8_000_000
}

/// Conjunction component: before the midnight (UT) that ends the
/// observation day, whose `0h` instant is `day_start_jd_ms`.
pub open spec fn khgt_ijtima_ok(conjunction_jd_ms: int, day_start_jd_ms: int) -> bool {
    conjunction_jd_ms < day_start_jd_ms + 86_400_000
}

/// The rule's verdict is exactly the conjunction of its components.
pub open spec fn khgt_visible(
    altitude_udeg: int,
    elongation_udeg: int,
    conjunction_jd_ms: int,
    day_start_jd_ms: int,
) -> bool {
    khgt_altitude_ok(altitude_udeg) && khgt_elongation_ok(elongation_udeg) && khgt_ijtima_ok(
        conjunction_jd_ms,
        day_start_jd_ms,
    )
}

/// Verdict of the global single-calendar rule with the measures and
/// component outcomes it compared.
pub struct KhgtResult {
    pub is_visible: bool,
    /// Topocentric moon altitude at sunset, microdegrees.
    pub moon_altitude_udeg: i64,
    /// Geocentric elongation at sunset, microdegrees.
    pub elongation_udeg: i64,
    pub altitude_ok: bool,
    pub elongation_ok: bool,
    pub ijtima_ok: bool,
}

/// Evaluate the global single-calendar rule.  `day_start_jd_ms` is the
/// `0h` UT instant of the observation day.
pub fn evaluate_khgt(
    moon_altitude_udeg: i64,
    elongation_udeg: i64,
    conjunction_jd_ms: i64,
    day_start_jd_ms: i64,
) -> (r: KhgtResult)
    requires
        0 <= day_start_jd_ms <= 864_000_000_000_000,
    ensures
        r.moon_altitude_udeg == moon_altitude_udeg,
        r.elongation_udeg == elongation_udeg,
        r.altitude_ok == khgt_altitude_ok(moon_altitude_udeg as int),
        r.elongation_ok == khgt_elongation_ok(elongation_udeg as int),
        r.ijtima_ok == khgt_ijtima_ok(conjunction_jd_ms as int, day_start_jd_ms as int),
        r.is_visible == (r.altitude_ok && r.elongation_ok && r.ijtima_ok),
        r.is_visible == khgt_visible(
            moon_altitude_udeg as int,
            elongation_udeg as int,
            conjunction_jd_ms as int,
            day_start_jd_ms as int,
        ),
{
    let altitude_ok = moon_altitude_udeg >= 5_000_000;
    let elongation_ok = elongation_udeg >= 8_000_000;
    let ijtima_ok = conjunction_jd_ms < day_start_jd_ms + 86_400_000;
    KhgtResult {
        is_visible: altitude_ok && elongation_ok && ijtima_ok,
        moon_altitude_udeg,
        elongation_udeg,
        altitude_ok,
        elongation_ok,
        ijtima_ok,
    }
}

} // verus!
