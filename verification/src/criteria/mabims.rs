//! The historical regional rule (MABIMS 2-3-8): topocentric altitude at
//! least 2°, geocentric elongation at least 3°, moon age at least 8 hours.

use vstd::prelude::*;

verus! {

/// Altitude component: at least 2°.
pub open spec fn mabims_altitude_ok(altitude_udeg: int) -> bool {
    altitude_udeg >= 2_000_000
}

/// Elongation component: at least 3°, geocentric.
pub open spec fn mabims_elongation_ok(elongation_udeg: int) -> bool {
    elongation_udeg >= 3_000_000
}

/// Age component: at least 8 hours since conjunction.
pub open spec fn mabims_age_ok(age_ms: int) -> bool {
    age_ms >= 28_800_000
}

/// The rule's verdict is exactly the conjunction of its components.
pub open spec fn mabims_visible(altitude_udeg: int, elongation_udeg: int, age_ms: int) -> bool {
    mabims_altitude_ok(altitude_udeg) && mabims_elongation_ok(elongation_udeg) && mabims_age_ok(
        age_ms,
    )
}

/// Verdict of the 2-3-8 rule together with the measures it compared.
pub struct MabimsResult {
    pub is_visible: bool,
    /// Topocentric moon altitude at sunset, microdegrees.
    pub moon_altitude_udeg: i64,
    /// Geocentric elongation at sunset, microdegrees.
    pub geocentric_elongation_udeg: i64,
    /// Moon age at sunset, milliseconds since conjunction.
    pub moon_age_ms: i64,
}

/// Evaluate the 2-3-8 rule at a sunset instant.
///
/// The age is the signed interval from the conjunction instant to the
/// observation instant, both Julian Day milliseconds.
pub fn evaluate_criteria(
    moon_altitude_udeg: i64,
    geocentric_elongation_udeg: i64,
    conjunction_jd_ms: i64,
    observation_jd_ms: i64,
) -> (r: MabimsResult)
    requires
        0 <= conjunction_jd_ms <= 864_000_000_000_000,
        0 <= observation_jd_ms <= 864_000_000_000_000,
    ensures
        r.moon_age_ms == observation_jd_ms - conjunction_jd_ms,
        r.moon_altitude_udeg == moon_altitude_udeg,
        r.geocentric_elongation_udeg == geocentric_elongation_udeg,
        r.is_visible == mabims_visible(
            moon_altitude_udeg as int,
            geocentric_elongation_udeg as int,
            r.moon_age_ms as int,
        ),
{
    let moon_age_ms: i64 = observation_jd_ms - conjunction_jd_ms;
    let is_visible = moon_altitude_udeg >= 2_000_000 && geocentric_elongation_udeg >= 3_000_000
        && moon_age_ms >= 28_800_000;
    MabimsResult { is_visible, moon_altitude_udeg, geocentric_elongation_udeg, moon_age_ms }
}

/// The verdict is never computed apart from its components: it is their
/// conjunction, for every combination of measures.
pub proof fn lemma_mabims_verdict_is_conjunction(
    altitude_udeg: int,
    elongation_udeg: int,
    age_ms: int,
)
    ensures
        mabims_visible(altitude_udeg, elongation_udeg, age_ms) == (mabims_altitude_ok(altitude_udeg)
            && mabims_elongation_ok(elongation_udeg) && mabims_age_ok(age_ms)),
{
}

} // verus!
