//! The visual-acuity rule (Odeh): a continuous score
//! `q = ARCV - threshold(width)` where the threshold is a cubic in the
//! crescent width, classified into visibility bands at 5.65, 0.216 and
//! -0.014 degrees.
//!
//! The cubic's coefficients carry four decimals and the width three, so
//! every quantity here is exact in units of 1e-13 degree: at that scale
//! `-0.1018 w^3 + 0.7319 w^2 - 6.3226 w + 7.1651` (width in arcminutes)
//! becomes an integer polynomial in the width expressed in
//! milli-arcminutes.

use vstd::prelude::*;

verus! {

/// The Odeh threshold for a crescent width given in milli-arcminutes, in
/// units of 1e-13 degree.
pub open spec fn spec_odeh_threshold(width_mam: int) -> int {
    71_651_000_000_000 - 63_226_000_000 * width_mam + 7_319_000 * (width_mam * width_mam) - 1018 * (
    width_mam * width_mam * width_mam)
}

/// The continuous score: arc of vision minus the width threshold, in
/// units of 1e-13 degree (the arc of vision arrives in microdegrees).
pub open spec fn spec_q_value(arcv_udeg: int, width_mam: int) -> int {
    arcv_udeg * 10_000_000 - spec_odeh_threshold(width_mam)
}

/// A score is counted visible above the lowest band boundary (-0.014°).
pub open spec fn spec_q_visible(q_e13: int) -> bool {
    q_e13 > -140_000_000_000
}

/// The visibility band a score falls in.
pub open spec fn spec_q_band(q_e13: int) -> Seq<char> {
    if q_e13 > 56_500_000_000_000 {
        "easily_visible"@
    } else if q_e13 > 2_160_000_000_000 {
        "visible_with_optical_aid"@
    } else if q_e13 > -140_000_000_000 {
        "visible_exceptional_acuity"@
    } else {
        "not_visible"@
    }
}

/// Evaluate the width threshold of the Odeh rule.
///
/// The width bound keeps the cubic inside 64 bits; physical crescent
/// widths stay below a few arcminutes.
pub fn calculate_odeh_threshold(width_mam: i64) -> (t: i64)
    requires
        0 <= width_mam <= 100_000,
    ensures
        t == spec_odeh_threshold(width_mam as int),
{
    proof {
        assert(width_mam * width_mam <= 10_000_000_000) by (nonlinear_arith)
            requires
                0 <= width_mam <= 100_000,
        ;
        assert((width_mam * width_mam) * width_mam <= 1_000_000_000_000_000) by (nonlinear_arith)
            requires
                0 <= width_mam <= 100_000,
        ;
    }
    let w2: i64 = width_mam * width_mam;
    let w3: i64 = w2 * width_mam;
    71_651_000_000_000 - 63_226_000_000 * width_mam + 7_319_000 * w2 - 1018 * w3
}

/// Classify a score into its band, returning the verdict and the band
/// name.
pub fn evaluate_q_value(q_e13: i64) -> (r: (bool, String))
    ensures
        r.0 == spec_q_visible(q_e13 as int),
        r.1@ == spec_q_band(q_e13 as int),
{
    if q_e13 > 56_500_000_000_000 {
        (true, String::from_str("easily_visible"))
    } else if q_e13 > 2_160_000_000_000 {
        (true, String::from_str("visible_with_optical_aid"))
    } else if q_e13 > -140_000_000_000 {
        (true, String::from_str("visible_exceptional_acuity"))
    } else {
        (false, String::from_str("not_visible"))
    }
}

/// The verdict flag never contradicts the band: a score counts visible
/// exactly when its band is not the `not_visible` one.
pub proof fn lemma_flag_matches_band(q_e13: int)
    ensures
        spec_q_visible(q_e13) <==> spec_q_band(q_e13) != "not_visible"@,
{
    reveal_strlit("easily_visible");
    reveal_strlit("visible_with_optical_aid");
    reveal_strlit("visible_exceptional_acuity");
    reveal_strlit("not_visible");
    assert("easily_visible"@.len() == 14);
    assert("visible_with_optical_aid"@.len() == 24);
    assert("visible_exceptional_acuity"@.len() == 26);
    assert("not_visible"@.len() == 11);
}

/// Verdict of the visual-acuity rule with the measures and the score.
pub struct OdehResult {
    pub is_visible: bool,
    /// Topocentric moon altitude at sunset, microdegrees.
    pub moon_altitude_udeg: i64,
    /// Sun altitude at sunset, microdegrees.
    pub sun_altitude_udeg: i64,
    /// Arc of vision, microdegrees.
    pub arcv_udeg: i64,
    /// Crescent width, milli-arcminutes.
    pub crescent_width_mam: i64,
    /// Score `q`, units of 1e-13 degree.
    pub q_value_e13: i64,
    pub visibility_type: String,
}

/// Evaluate the visual-acuity rule from the arc of vision and the
/// crescent width; altitude measures ride along for reporting.
pub fn evaluate_odeh(
    moon_altitude_udeg: i64,
    sun_altitude_udeg: i64,
    arcv_udeg: i64,
    crescent_width_mam: i64,
) -> (r: OdehResult)
    requires
        -360_000_000 <= arcv_udeg <= 360_000_000,
        0 <= crescent_width_mam <= 100_000,
    ensures
        r.q_value_e13 == spec_q_value(arcv_udeg as int, crescent_width_mam as int),
        -1_100_000_000_000_000_000 <= r.q_value_e13 <= 1_100_000_000_000_000_000,
        r.is_visible == spec_q_visible(r.q_value_e13 as int),
        r.visibility_type@ == spec_q_band(r.q_value_e13 as int),
        r.moon_altitude_udeg == moon_altitude_udeg,
        r.sun_altitude_udeg == sun_altitude_udeg,
        r.arcv_udeg == arcv_udeg,
        r.crescent_width_mam == crescent_width_mam,
{
    let threshold: i64 = calculate_odeh_threshold(crescent_width_mam);
    proof {
        assert(spec_odeh_threshold(crescent_width_mam as int) <= 71_651_000_000_000 + 7_319_000
            * 10_000_000_000) by (nonlinear_arith)
            requires
                0 <= crescent_width_mam <= 100_000,
        ;
        assert(spec_odeh_threshold(crescent_width_mam as int) >= -63_226_000_000 * 100_000 - 1018
            * 1_000_000_000_000_000) by (nonlinear_arith)
            requires
                0 <= crescent_width_mam <= 100_000,
        ;
    }
    let q: i64 = arcv_udeg * 10_000_000 - threshold;
    let (is_visible, visibility_type) = evaluate_q_value(q);
    OdehResult {
        is_visible,
        moon_altitude_udeg,
        sun_altitude_udeg,
        arcv_udeg,
        crescent_width_mam,
        q_value_e13: q,
        visibility_type,
    }
}

} // verus!
