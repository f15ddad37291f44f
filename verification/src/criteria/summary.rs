//! Evaluation of every rule set at once.
//!
//! The ephemeris measures everything once at the local sunset instant;
//! this module turns those measures into one labelled verdict per rule,
//! with the reported text pinned character by character.

use crate::criteria::lfnu::{lfnu_altitude_ok, lfnu_elongation_ok};
use crate::criteria::mabims::mabims_visible;
use crate::criteria::odeh::{evaluate_odeh, spec_q_band, spec_q_value, spec_q_visible};
use crate::criteria::turkey::{turkey_altitude_ok, turkey_elongation_ok};
use crate::criteria::wujudul_hilal::{ijtimak_before_maghrib, moon_above_horizon};
use crate::textfmt::{
    fixed2_of_micro, fixed2_of_milli, fixed3_of_e13, hours1_of_ms, spec_fixed2_of_micro,
    spec_fixed2_of_milli, spec_fixed3_of_e13, spec_hours1_of_ms,
};
use vstd::prelude::*;

verus! {

/// A verdict's broad classification.
#[derive(Clone, Copy, Debug, PartialEq, Eq, Structural)]
pub enum VisibilityType {
    Visible,
    NotVisible,
    Uncertain,
}

/// One rule set's labelled verdict.
pub struct VisibilityResult {
    pub criteria_name: String,
    pub is_visible: bool,
    pub visibility_type: String,
    pub additional_info: String,
}

/// The measures the ephemeris produces for one (location, date) query at
/// the local sunset instant.
pub struct SunsetMeasures {
    /// Local sunset, Julian Day milliseconds (universal time).
    pub sunset_jd_ms: i64,
    /// Conjunction nearest before the observation, Julian Day milliseconds.
    pub conjunction_jd_ms: i64,
    /// Topocentric moon altitude, microdegrees.
    pub moon_altitude_topo_udeg: i64,
    /// Topocentric elongation, microdegrees.
    pub elongation_topo_udeg: i64,
    /// Geocentric elongation, microdegrees.
    pub elongation_geo_udeg: i64,
    /// Sun altitude, microdegrees.
    pub sun_altitude_udeg: i64,
    /// Arc of vision, microdegrees.
    pub arcv_udeg: i64,
    /// Crescent width, milli-arcminutes.
    pub crescent_width_mam: i64,
}

impl SunsetMeasures {
    /// Ranges the ephemeris guarantees: instants within the Julian Day
    /// span the calendar covers, angles within a full circle, width
    /// nonnegative and bounded.
    pub open spec fn wf(self) -> bool {
        &&& 0 <= self.sunset_jd_ms <= 864_000_000_000_000
        &&& 0 <= self.conjunction_jd_ms <= 864_000_000_000_000
        &&& -360_000_000 <= self.moon_altitude_topo_udeg <= 360_000_000
        &&& -360_000_000 <= self.elongation_topo_udeg <= 360_000_000
        &&& -360_000_000 <= self.elongation_geo_udeg <= 360_000_000
        &&& -360_000_000 <= self.sun_altitude_udeg <= 360_000_000
        &&& -360_000_000 <= self.arcv_udeg <= 360_000_000
        &&& 0 <= self.crescent_width_mam <= 100_000
    }

    /// Moon age at sunset: the signed interval since conjunction.
    pub open spec fn spec_age_ms(self) -> int {
        self.sunset_jd_ms - self.conjunction_jd_ms
    }
}

/// `"Visible"` or `"Not Visible"`.
pub open spec fn spec_visible_label(v: bool) -> Seq<char> {
    if v {
        "Visible"@
    } else {
        "Not Visible"@
    }
}

/// `"true"` or `"false"`.
pub open spec fn spec_bool_label(v: bool) -> Seq<char> {
    if v {
        "true"@
    } else {
        "false"@
    }
}

fn visible_label(v: bool) -> (r: String)
    ensures
        r@ == spec_visible_label(v),
{
    if v {
        String::from_str("Visible")
    } else {
        String::from_str("Not Visible")
    }
}

fn bool_label(v: bool) -> (r: String)
    ensures
        r@ == spec_bool_label(v),
{
    if v {
        String::from_str("true")
    } else {
        String::from_str("false")
    }
}

/// Info line of the 2-3-8 verdict.
pub open spec fn spec_mabims_info(m: SunsetMeasures) -> Seq<char> {
    "Altitude: "@ + spec_fixed2_of_micro(m.moon_altitude_topo_udeg as int) + "°, Elongation: "@
        + spec_fixed2_of_micro(m.elongation_geo_udeg as int) + "°, Age: "@ + spec_hours1_of_ms(
        m.spec_age_ms(),
    ) + "h"@
}

/// Info line of the existence-only verdict.
pub open spec fn spec_wujudul_info(m: SunsetMeasures) -> Seq<char> {
    "Ijtimak before maghrib: "@ + spec_bool_label(
        ijtimak_before_maghrib(m.conjunction_jd_ms as int, m.sunset_jd_ms as int),
    ) + ", Moon altitude: "@ + spec_fixed2_of_micro(m.moon_altitude_topo_udeg as int) + "°"@
}

/// Info line of an altitude-and-elongation verdict.
pub open spec fn spec_alt_elong_info(altitude_udeg: int, elongation_udeg: int) -> Seq<char> {
    "Altitude: "@ + spec_fixed2_of_micro(altitude_udeg) + "°, Elongation: "@
        + spec_fixed2_of_micro(elongation_udeg) + "°"@
}

/// Info line of the visual-acuity verdict.
pub open spec fn spec_odeh_info(m: SunsetMeasures) -> Seq<char> {
    "ARCV: "@ + spec_fixed2_of_micro(m.arcv_udeg as int) + "°, Width: "@ + spec_fixed2_of_milli(
        m.crescent_width_mam as int,
    ) + "', q-value: "@ + spec_fixed3_of_e13(
        spec_q_value(m.arcv_udeg as int, m.crescent_width_mam as int),
    )
}

/// Info line of the conjunction-before-sunset verdict.
pub open spec fn spec_ijtima_info(m: SunsetMeasures) -> Seq<char> {
    "Ijtimak sebelum maghrib: "@ + spec_bool_label(
        ijtimak_before_maghrib(m.conjunction_jd_ms as int, m.sunset_jd_ms as int),
    )
}

fn mabims_entry(m: &SunsetMeasures) -> (r: VisibilityResult)
    requires
        m.wf(),
    ensures
        r.criteria_name@ == "MABIMS"@,
        r.is_visible == mabims_visible(
            m.moon_altitude_topo_udeg as int,
            m.elongation_geo_udeg as int,
            m.spec_age_ms(),
        ),
        r.visibility_type@ == spec_visible_label(r.is_visible),
        r.additional_info@ == spec_mabims_info(*m),
{
    let age_ms: i64 = m.sunset_jd_ms - m.conjunction_jd_ms;
    let is_visible = m.moon_altitude_topo_udeg >= 2_000_000 && m.elongation_geo_udeg >= 3_000_000
        && age_ms >= 28_800_000;
    let mut info = String::from_str("Altitude: ");
    info.append(fixed2_of_micro(m.moon_altitude_topo_udeg).as_str());
    info.append("°, Elongation: ");
    info.append(fixed2_of_micro(m.elongation_geo_udeg).as_str());
    info.append("°, Age: ");
    info.append(hours1_of_ms(age_ms).as_str());
    info.append("h");
    proof {
        reveal_strlit("Altitude: ");
        reveal_strlit("°, Elongation: ");
        reveal_strlit("°, Age: ");
        reveal_strlit("h");
        assert(info@ =~= spec_mabims_info(*m));
    }
    VisibilityResult {
        criteria_name: String::from_str("MABIMS"),
        is_visible,
        visibility_type: visible_label(is_visible),
        additional_info: info,
    }
}

fn wujudul_entry(m: &SunsetMeasures) -> (r: VisibilityResult)
    requires
        m.wf(),
    ensures
        r.criteria_name@ == "Wujudul Hilal"@,
        r.is_visible == (ijtimak_before_maghrib(m.conjunction_jd_ms as int, m.sunset_jd_ms as int)
            && moon_above_horizon(m.moon_altitude_topo_udeg as int)),
        r.visibility_type@ == spec_visible_label(r.is_visible),
        r.additional_info@ == spec_wujudul_info(*m),
{
    let before = m.conjunction_jd_ms < m.sunset_jd_ms;
    let above = m.moon_altitude_topo_udeg > 0;
    let is_visible = before && above;
    let mut info = String::from_str("Ijtimak before maghrib: ");
    info.append(bool_label(before).as_str());
    info.append(", Moon altitude: ");
    info.append(fixed2_of_micro(m.moon_altitude_topo_udeg).as_str());
    info.append("°");
    proof {
        reveal_strlit("Ijtimak before maghrib: ");
        reveal_strlit(", Moon altitude: ");
        reveal_strlit("°");
        assert(info@ =~= spec_wujudul_info(*m));
    }
    VisibilityResult {
        criteria_name: String::from_str("Wujudul Hilal"),
        is_visible,
        visibility_type: visible_label(is_visible),
        additional_info: info,
    }
}

fn alt_elong_info(altitude_udeg: i64, elongation_udeg: i64) -> (r: String)
    requires
        -360_000_000 <= altitude_udeg <= 360_000_000,
        -360_000_000 <= elongation_udeg <= 360_000_000,
    ensures
        r@ == spec_alt_elong_info(altitude_udeg as int, elongation_udeg as int),
{
    let mut info = String::from_str("Altitude: ");
    info.append(fixed2_of_micro(altitude_udeg).as_str());
    info.append("°, Elongation: ");
    info.append(fixed2_of_micro(elongation_udeg).as_str());
    info.append("°");
    proof {
        reveal_strlit("Altitude: ");
        reveal_strlit("°, Elongation: ");
        reveal_strlit("°");
        assert(info@ =~= spec_alt_elong_info(altitude_udeg as int, elongation_udeg as int));
    }
    info
}

fn turkey_entry(m: &SunsetMeasures) -> (r: VisibilityResult)
    requires
        m.wf(),
    ensures
        r.criteria_name@ == "Turkey (Diyanet)"@,
        r.is_visible == (turkey_altitude_ok(m.moon_altitude_topo_udeg as int) && turkey_elongation_ok(
            m.elongation_topo_udeg as int,
        )),
        r.visibility_type@ == spec_visible_label(r.is_visible),
        r.additional_info@ == spec_alt_elong_info(
            m.moon_altitude_topo_udeg as int,
            m.elongation_topo_udeg as int,
        ),
{
    let is_visible = m.moon_altitude_topo_udeg >= 5_000_000 && m.elongation_topo_udeg >= 8_000_000;
    VisibilityResult {
        criteria_name: String::from_str("Turkey (Diyanet)"),
        is_visible,
        visibility_type: visible_label(is_visible),
        additional_info: alt_elong_info(m.moon_altitude_topo_udeg, m.elongation_topo_udeg),
    }
}

fn odeh_entry(m: &SunsetMeasures) -> (r: VisibilityResult)
    requires
        m.wf(),
    ensures
        r.criteria_name@ == "Odeh"@,
        r.is_visible == spec_q_visible(
            spec_q_value(m.arcv_udeg as int, m.crescent_width_mam as int),
        ),
        r.visibility_type@ == spec_q_band(
            spec_q_value(m.arcv_udeg as int, m.crescent_width_mam as int),
        ),
        r.additional_info@ == spec_odeh_info(*m),
{
    let odeh = evaluate_odeh(
        m.moon_altitude_topo_udeg,
        m.sun_altitude_udeg,
        m.arcv_udeg,
        m.crescent_width_mam,
    );
    let mut info = String::from_str("ARCV: ");
    info.append(fixed2_of_micro(m.arcv_udeg).as_str());
    info.append("°, Width: ");
    info.append(fixed2_of_milli(m.crescent_width_mam).as_str());
    info.append("', q-value: ");
    info.append(fixed3_of_e13(odeh.q_value_e13).as_str());
    proof {
        reveal_strlit("ARCV: ");
        reveal_strlit("°, Width: ");
        reveal_strlit("', q-value: ");
        assert(info@ =~= spec_odeh_info(*m));
    }
    VisibilityResult {
        criteria_name: String::from_str("Odeh"),
        is_visible: odeh.is_visible,
        visibility_type: odeh.visibility_type,
        additional_info: info,
    }
}

fn ijtima_entry(m: &SunsetMeasures) -> (r: VisibilityResult)
    requires
        m.wf(),
    ensures
        r.criteria_name@ == "Ijtima Qobla Ghurub"@,
        r.is_visible == ijtimak_before_maghrib(m.conjunction_jd_ms as int, m.sunset_jd_ms as int),
        r.visibility_type@ == spec_visible_label(r.is_visible),
        r.additional_info@ == spec_ijtima_info(*m),
{
    let before = m.conjunction_jd_ms < m.sunset_jd_ms;
    let mut info = String::from_str("Ijtimak sebelum maghrib: ");
    info.append(bool_label(before).as_str());
    proof {
        reveal_strlit("Ijtimak sebelum maghrib: ");
        assert(info@ =~= spec_ijtima_info(*m));
    }
    VisibilityResult {
        criteria_name: String::from_str("Ijtima Qobla Ghurub"),
        is_visible: before,
        visibility_type: visible_label(before),
        additional_info: info,
    }
}

fn lfnu_entry(m: &SunsetMeasures) -> (r: VisibilityResult)
    requires
        m.wf(),
    ensures
        r.criteria_name@ == "LFNU (Lembaga Falakiyah NU)"@,
        r.is_visible == (lfnu_altitude_ok(m.moon_altitude_topo_udeg as int) && lfnu_elongation_ok(
            m.elongation_topo_udeg as int,
        )),
        r.visibility_type@ == spec_visible_label(r.is_visible),
        r.additional_info@ == spec_alt_elong_info(
            m.moon_altitude_topo_udeg as int,
            m.elongation_topo_udeg as int,
        ),
{
    let is_visible = m.moon_altitude_topo_udeg >= 2_000_000 && m.elongation_topo_udeg >= 3_000_000;
    VisibilityResult {
        criteria_name: String::from_str("LFNU (Lembaga Falakiyah NU)"),
        is_visible,
        visibility_type: visible_label(is_visible),
        additional_info: alt_elong_info(m.moon_altitude_topo_udeg, m.elongation_topo_udeg),
    }
}

/// Evaluate every rule set on one sunset's measures.
///
/// The verdicts come back in a fixed order: the 2-3-8 rule, the
/// existence-only rule, the Diyanet rule, the visual-acuity rule, the
/// conjunction-before-sunset rule, and the LFNU rule.  Each verdict's
/// flag is pinned to its rule's component comparisons.
pub fn evaluate_all_criteria(m: &SunsetMeasures) -> (r: Vec<VisibilityResult>)
    requires
        m.wf(),
    ensures
        r@.len() == 6,
        r@[0].criteria_name@ == "MABIMS"@,
        r@[0].is_visible == mabims_visible(
            m.moon_altitude_topo_udeg as int,
            m.elongation_geo_udeg as int,
            m.spec_age_ms(),
        ),
        r@[1].criteria_name@ == "Wujudul Hilal"@,
        r@[1].is_visible == (ijtimak_before_maghrib(
            m.conjunction_jd_ms as int,
            m.sunset_jd_ms as int,
        ) && moon_above_horizon(m.moon_altitude_topo_udeg as int)),
        r@[2].criteria_name@ == "Turkey (Diyanet)"@,
        r@[2].is_visible == (turkey_altitude_ok(m.moon_altitude_topo_udeg as int)
            && turkey_elongation_ok(m.elongation_topo_udeg as int)),
        r@[3].criteria_name@ == "Odeh"@,
        r@[3].is_visible == spec_q_visible(
            spec_q_value(m.arcv_udeg as int, m.crescent_width_mam as int),
        ),
        r@[4].criteria_name@ == "Ijtima Qobla Ghurub"@,
        r@[4].is_visible == ijtimak_before_maghrib(
            m.conjunction_jd_ms as int,
            m.sunset_jd_ms as int,
        ),
        r@[5].criteria_name@ == "LFNU (Lembaga Falakiyah NU)"@,
        r@[5].is_visible == (lfnu_altitude_ok(m.moon_altitude_topo_udeg as int)
            && lfnu_elongation_ok(m.elongation_topo_udeg as int)),
{
    let mut results: Vec<VisibilityResult> = Vec::new();
    results.push(mabims_entry(m));
    results.push(wujudul_entry(m));
    results.push(turkey_entry(m));
    results.push(odeh_entry(m));
    results.push(ijtima_entry(m));
    results.push(lfnu_entry(m));
    results
}

} // verus!
