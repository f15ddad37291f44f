//! Visibility-map decisions: the per-cell rule dispatcher and the
//! gradient level a map cell is painted with.

use crate::criteria::lfnu::lfnu_visible;
use crate::criteria::turkey::turkey_visible;
use crate::criteria::wujudul_hilal::moon_above_horizon;
use crate::types::VisibilityCriteria;
use vstd::prelude::*;

verus! {

/// One painted cell of the visibility map.
pub struct VisibilityZone {
    /// Cell latitude, microdegrees.
    pub latitude_udeg: i64,
    /// Western edge of the cell, microdegrees.
    pub longitude_start_udeg: i64,
    /// Eastern edge of the cell, microdegrees.
    pub longitude_end_udeg: i64,
    /// Cell size, microdegrees.
    pub step_udeg: i64,
    pub is_visible: bool,
    /// Visual-acuity score at the cell, units of 1e-13 degree.
    pub q_value_e13: i64,
    /// Gradient level, 0 (impossible) to 4 (easy).
    pub visibility_level: i32,
    pub criteria: String,
}

/// The verdict the map dispatcher gives for a rule selection on the
/// sunset measures of one cell: below -10° altitude everything is
/// invisible, above it each selection applies its thresholds.
pub open spec fn spec_check_visibility(
    criteria: VisibilityCriteria,
    moon_altitude_udeg: int,
    elongation_udeg: int,
) -> bool {
    if moon_altitude_udeg < -10_000_000 {
        false
    } else {
        match criteria {
            VisibilityCriteria::MABIMS => moon_altitude_udeg >= 3_000_000 && elongation_udeg
                >= 6_400_000,
            VisibilityCriteria::Odeh => moon_altitude_udeg >= 5_000_000 && elongation_udeg
                >= 8_000_000,
            VisibilityCriteria::Turkey => moon_altitude_udeg >= 5_000_000 && elongation_udeg
                >= 8_000_000,
            VisibilityCriteria::WujudulHilal => moon_altitude_udeg > 0,
            _ => moon_altitude_udeg >= 2_000_000 && elongation_udeg >= 3_000_000,
        }
    }
}

/// Decide visibility at one location for the selected rule, from the
/// topocentric sunset measures.
///
/// The neo-MABIMS thresholds (3°/6.4°) answer the MABIMS selection; the
/// remaining selections fall back to the conservative 2°/3° pair.
pub fn check_visibility_at_location(
    criteria: &VisibilityCriteria,
    moon_altitude_udeg: i64,
    elongation_udeg: i64,
) -> (r: bool)
    ensures
        r == spec_check_visibility(*criteria, moon_altitude_udeg as int, elongation_udeg as int),
{
    if moon_altitude_udeg < -10_000_000 {
        return false;
    }
    match criteria {
        VisibilityCriteria::MABIMS => moon_altitude_udeg >= 3_000_000 && elongation_udeg
            >= 6_400_000,
        VisibilityCriteria::Odeh => moon_altitude_udeg >= 5_000_000 && elongation_udeg
            >= 8_000_000,
        VisibilityCriteria::Turkey => moon_altitude_udeg >= 5_000_000 && elongation_udeg
            >= 8_000_000,
        VisibilityCriteria::WujudulHilal => moon_altitude_udeg > 0,
        _ => moon_altitude_udeg >= 2_000_000 && elongation_udeg >= 3_000_000,
    }
}

/// The gradient band of a cell: 0 below the horizon or deeply negative
/// scores, then the score bands up to 4 (easy).
pub open spec fn spec_visibility_level(q_e13: int, moon_altitude_udeg: int) -> int {
    if moon_altitude_udeg <= 0 {
        0
    } else if q_e13 > 56_500_000_000_000 {
        4
    } else if q_e13 > 2_160_000_000_000 {
        3
    } else if q_e13 > -140_000_000_000 {
        2
    } else if q_e13 > -5_000_000_000_000 {
        1
    } else {
        0
    }
}

/// Gradient level of a map cell from the visual-acuity score and the
/// moon altitude.
pub fn visibility_level(q_e13: i64, moon_altitude_udeg: i64) -> (r: i32)
    ensures
        r == spec_visibility_level(q_e13 as int, moon_altitude_udeg as int),
        0 <= r <= 4,
{
    if moon_altitude_udeg <= 0 {
        0
    } else if q_e13 > 56_500_000_000_000 {
        4
    } else if q_e13 > 2_160_000_000_000 {
        3
    } else if q_e13 > -140_000_000_000 {
        2
    } else if q_e13 > -5_000_000_000_000 {
        1
    } else {
        0
    }
}

/// The level a cell is painted with: the gradient selections keep the
/// score band; every binary selection is forced to agree with its
/// boolean verdict.
pub open spec fn spec_zone_level(
    criteria: VisibilityCriteria,
    is_visible: bool,
    q_e13: int,
    moon_altitude_udeg: int,
) -> int {
    match criteria {
        VisibilityCriteria::Odeh => spec_visibility_level(q_e13, moon_altitude_udeg),
        VisibilityCriteria::Turkey => spec_visibility_level(q_e13, moon_altitude_udeg),
        _ => if is_visible {
            3
        } else {
            0
        },
    }
}

/// Paint level of a cell, forcing binary rules to match their verdict.
pub fn zone_level(
    criteria: &VisibilityCriteria,
    is_visible: bool,
    q_e13: i64,
    moon_altitude_udeg: i64,
) -> (r: i32)
    ensures
        r == spec_zone_level(*criteria, is_visible, q_e13 as int, moon_altitude_udeg as int),
        0 <= r <= 4,
{
    match criteria {
        VisibilityCriteria::Odeh => visibility_level(q_e13, moon_altitude_udeg),
        VisibilityCriteria::Turkey => visibility_level(q_e13, moon_altitude_udeg),
        _ => if is_visible {
            3
        } else {
            0
        },
    }
}

/// The map dispatcher never departs from the Diyanet rule module: for
/// every pair of measures its Turkey answer is that rule's conjunction of
/// components.
pub proof fn lemma_dispatch_matches_turkey(moon_altitude_udeg: int, elongation_udeg: int)
    ensures
        spec_check_visibility(VisibilityCriteria::Turkey, moon_altitude_udeg, elongation_udeg)
            == turkey_visible(moon_altitude_udeg, elongation_udeg),
{
}

/// The map dispatcher's existence-only answer is exactly the
/// above-horizon component of the existence rule.
pub proof fn lemma_dispatch_matches_wujudul(moon_altitude_udeg: int, elongation_udeg: int)
    ensures
        spec_check_visibility(VisibilityCriteria::WujudulHilal, moon_altitude_udeg, elongation_udeg)
            == moon_above_horizon(moon_altitude_udeg),
{
}

/// The map dispatcher's conservative fallback is exactly the LFNU rule's
/// conjunction of components.
pub proof fn lemma_dispatch_fallback_matches_lfnu(moon_altitude_udeg: int, elongation_udeg: int)
    ensures
        spec_check_visibility(VisibilityCriteria::Custom, moon_altitude_udeg, elongation_udeg)
            == lfnu_visible(moon_altitude_udeg, elongation_udeg),
{
}

} // verus!
