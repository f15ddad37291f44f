//! Rule-set verdicts, including the reference scenarios.

use hilal::criteria::additional::{evaluate_kig, evaluate_kriteria_29};
use hilal::criteria::ijtima_qobla_ghurub::evaluate_ijtima_qobla_ghurub;
use hilal::criteria::lfnu::evaluate_lfnu;
use hilal::criteria::mabims::evaluate_criteria;
use hilal::criteria::odeh::{calculate_odeh_threshold, evaluate_odeh, evaluate_q_value};
use hilal::criteria::summary::{evaluate_all_criteria, SunsetMeasures};
use hilal::criteria::turkey::evaluate_turkey;
use hilal::criteria::wujudul_hilal::evaluate_wujudul_hilal;
use hilal::map::{check_visibility_at_location, visibility_level, zone_level};
use hilal::types::VisibilityCriteria;

// The reference scenario: lat -7.0739, lon 106.5314, elevation 10 m,
// UTC+7, on 2026-02-18.  Sunset 18.285 h local, topocentric moon
// altitude 8.653 deg, topocentric elongation 11.096 deg, moon age
// 21.957 h; the day before, the conjunction falls after sunset.
const FEB18_ALTITUDE_UDEG: i64 = 8_653_000;
const FEB18_ELONGATION_UDEG: i64 = 11_096_000;
const FEB18_AGE_MS: i64 = 79_045_200;
const FEB18_SUNSET_JD_MS: i64 = 212_638_173_426_000;

#[test]
fn test_mabims_visible_on_reference_evening() {
    let conjunction = FEB18_SUNSET_JD_MS - FEB18_AGE_MS;
    let r = evaluate_criteria(
        FEB18_ALTITUDE_UDEG,
        FEB18_ELONGATION_UDEG,
        conjunction,
        FEB18_SUNSET_JD_MS,
    );
    assert_eq!(r.moon_age_ms, FEB18_AGE_MS);
    assert!(r.is_visible);
}

#[test]
fn test_existence_rule_fails_before_conjunction() {
    // The evening before: the conjunction falls about two hours after
    // sunset, so the moon age is negative.
    let sunset = FEB18_SUNSET_JD_MS - 86_400_000;
    let conjunction = sunset + 7_320_000;
    let r = evaluate_wujudul_hilal(conjunction, sunset, -1_117_200);
    assert!(!r.ijtimak_before_maghrib);
    assert!(!r.is_visible);
    let q = evaluate_ijtima_qobla_ghurub(conjunction, sunset);
    assert!(!q.is_visible);
}

#[test]
fn test_mabims_age_component() {
    // Altitude and elongation pass, but the moon is only seven hours
    // old: the verdict must fail through the age component alone.
    let sunset: i64 = 212_638_173_426_000;
    let conjunction = sunset - 7 * 3_600_000;
    let r = evaluate_criteria(5_000_000, 7_000_000, conjunction, sunset);
    assert!(!r.is_visible);
}

#[test]
fn test_turkey_criteria_requirements() {
    let result = evaluate_turkey(4_000_000, 9_000_000);

    if result.altitude_ok && result.elongation_ok {
        assert!(result.is_visible);
    } else {
        assert!(!result.is_visible);
    }
    assert!(!result.altitude_ok);
    assert!(result.elongation_ok);
    assert!(!result.is_visible);

    let pass = evaluate_turkey(5_000_000, 8_000_000);
    assert!(pass.is_visible);
}

#[test]
fn test_lfnu_criteria_requirements() {
    let result = evaluate_lfnu(FEB18_ALTITUDE_UDEG, FEB18_ELONGATION_UDEG);

    if result.altitude_ok && result.elongation_ok {
        assert!(result.is_visible);
    } else {
        assert!(!result.is_visible);
    }
    assert!(result.is_visible);
}

#[test]
fn test_lfnu_altitude_threshold() {
    let result = evaluate_lfnu(1_999_999, 3_000_000);
    assert_eq!(result.altitude_ok, result.moon_altitude_udeg >= 2_000_000);
    assert_eq!(result.elongation_ok, result.elongation_udeg >= 3_000_000);
    assert!(!result.is_visible);
}

#[test]
fn test_wujudul_hilal_both_conditions() {
    let r = evaluate_wujudul_hilal(100, 200, 1);
    assert!(r.ijtimak_before_maghrib);
    assert!(r.moon_above_horizon);
    assert!(r.is_visible);
}

#[test]
fn test_ijtima_qobla_ghurub_basic() {
    let result = evaluate_ijtima_qobla_ghurub(100, 200);
    assert_eq!(result.is_visible, result.ijtimak_before_maghrib);
}

#[test]
fn test_ijtima_qobla_ghurub_logical() {
    let maghrib: i64 = 212_638_173_426_000;
    // Thirty minutes before and after the maghrib instant.
    let before = evaluate_ijtima_qobla_ghurub(maghrib - 1_800_000, maghrib);
    assert!(before.is_visible);
    let after = evaluate_ijtima_qobla_ghurub(maghrib + 1_800_000, maghrib);
    assert!(!after.is_visible);
}

#[test]
fn test_odeh_threshold_formula() {
    let threshold1 = calculate_odeh_threshold(1_000);
    assert!(threshold1 > 0);

    let threshold2 = calculate_odeh_threshold(5_000);
    assert!(threshold2 < threshold1);
}

#[test]
fn test_odeh_threshold_exact_value() {
    // At one arcminute the cubic is -0.1018 + 0.7319 - 6.3226 + 7.1651
    // = 1.4726 degrees, exactly at the 1e-13 scale.
    assert_eq!(calculate_odeh_threshold(1_000), 14_726_000_000_000);
    // At zero width only the constant term remains.
    assert_eq!(calculate_odeh_threshold(0), 71_651_000_000_000);
}

#[test]
fn test_q_value_evaluation() {
    let (visible, type_str) = evaluate_q_value(100_000_000_000_000);
    assert!(visible);
    assert_eq!(type_str, "easily_visible");

    let (visible, _) = evaluate_q_value(-500_000_000_000);
    assert!(!visible);
}

#[test]
fn test_odeh_band_boundaries() {
    let (v, band) = evaluate_q_value(56_500_000_000_001);
    assert!(v);
    assert_eq!(band, "easily_visible");
    let (v2, band2) = evaluate_q_value(56_500_000_000_000);
    assert!(v2);
    assert_eq!(band2, "visible_with_optical_aid");
    let (v3, band3) = evaluate_q_value(-139_999_999_999);
    assert!(v3);
    assert_eq!(band3, "visible_exceptional_acuity");
    let (v4, band4) = evaluate_q_value(-140_000_000_000);
    assert!(!v4);
    assert_eq!(band4, "not_visible");
}

#[test]
fn test_evaluate_odeh_score() {
    // ARCV 10 deg, width 1 arcmin: q = 10 - 1.4726 = 8.5274 deg.
    let r = evaluate_odeh(8_653_000, -273_300, 10_000_000, 1_000);
    assert_eq!(r.q_value_e13, 85_274_000_000_000);
    assert!(r.is_visible);
    assert_eq!(r.visibility_type, "easily_visible");
}

#[test]
fn test_kig_placeholder() {
    let result = evaluate_kig();
    assert_eq!(result.is_visible, false);
    assert!(result.note.contains("not found"));
}

#[test]
fn test_kriteria_29_placeholder() {
    let result = evaluate_kriteria_29();
    assert_eq!(result.is_visible, false);
    assert!(result.note.contains("not found"));
}

#[test]
fn test_evaluate_all_criteria_reference_evening() {
    let m = SunsetMeasures {
        sunset_jd_ms: FEB18_SUNSET_JD_MS,
        conjunction_jd_ms: FEB18_SUNSET_JD_MS - FEB18_AGE_MS,
        moon_altitude_topo_udeg: FEB18_ALTITUDE_UDEG,
        elongation_topo_udeg: FEB18_ELONGATION_UDEG,
        elongation_geo_udeg: 11_000_000,
        sun_altitude_udeg: -273_300,
        arcv_udeg: 8_926_300,
        crescent_width_mam: 300,
    };
    let results = evaluate_all_criteria(&m);
    assert_eq!(results.len(), 6);

    // The historical-regional rule accepts the reference evening.
    assert_eq!(results[0].criteria_name, "MABIMS");
    assert!(results[0].is_visible);
    assert_eq!(results[0].visibility_type, "Visible");
    assert!(results[0].additional_info.contains("Altitude: 8.65"));
    assert!(results[0].additional_info.contains("Age: 22.0h"));

    // Existence holds too: the conjunction came first, the moon is up.
    assert_eq!(results[1].criteria_name, "Wujudul Hilal");
    assert!(results[1].is_visible);

    // The strict rule: 8.65 deg passes 5 deg, 11.1 deg passes 8 deg.
    assert_eq!(results[2].criteria_name, "Turkey (Diyanet)");
    assert!(results[2].is_visible);

    assert_eq!(results[3].criteria_name, "Odeh");
    assert_eq!(results[4].criteria_name, "Ijtima Qobla Ghurub");
    assert!(results[4].is_visible);
    assert_eq!(results[5].criteria_name, "LFNU (Lembaga Falakiyah NU)");
    assert!(results[5].is_visible);

    // Each verdict equals the conjunction of its own comparisons.
    let age = m.sunset_jd_ms - m.conjunction_jd_ms;
    assert_eq!(
        results[0].is_visible,
        m.moon_altitude_topo_udeg >= 2_000_000
            && m.elongation_geo_udeg >= 3_000_000
            && age >= 28_800_000
    );
    assert_eq!(
        results[2].is_visible,
        m.moon_altitude_topo_udeg >= 5_000_000 && m.elongation_topo_udeg >= 8_000_000
    );
}

#[test]
fn test_evaluation_is_repeatable() {
    // Two evaluations of the same measures agree bit for bit: the
    // library holds no hidden state.
    let m = SunsetMeasures {
        sunset_jd_ms: FEB18_SUNSET_JD_MS,
        conjunction_jd_ms: FEB18_SUNSET_JD_MS - FEB18_AGE_MS,
        moon_altitude_topo_udeg: FEB18_ALTITUDE_UDEG,
        elongation_topo_udeg: FEB18_ELONGATION_UDEG,
        elongation_geo_udeg: 11_000_000,
        sun_altitude_udeg: -273_300,
        arcv_udeg: 8_926_300,
        crescent_width_mam: 300,
    };
    let first = evaluate_all_criteria(&m);
    let second = evaluate_all_criteria(&m);
    assert_eq!(first.len(), second.len());
    for (a, b) in first.iter().zip(second.iter()) {
        assert_eq!(a.criteria_name, b.criteria_name);
        assert_eq!(a.is_visible, b.is_visible);
        assert_eq!(a.visibility_type, b.visibility_type);
        assert_eq!(a.additional_info, b.additional_info);
    }
}

#[test]
fn test_check_visibility_dispatch() {
    // Neo-MABIMS thresholds behind the MABIMS selection.
    assert!(check_visibility_at_location(&VisibilityCriteria::MABIMS, 3_000_000, 6_400_000));
    assert!(!check_visibility_at_location(&VisibilityCriteria::MABIMS, 2_999_999, 6_400_000));
    // Odeh and Turkey share 5/8 on the map.
    assert!(check_visibility_at_location(&VisibilityCriteria::Odeh, 5_000_000, 8_000_000));
    assert!(!check_visibility_at_location(&VisibilityCriteria::Turkey, 4_999_999, 8_000_000));
    // Existence only needs the moon above the horizon.
    assert!(check_visibility_at_location(&VisibilityCriteria::WujudulHilal, 1, -5_000_000));
    assert!(!check_visibility_at_location(&VisibilityCriteria::WujudulHilal, 0, 5_000_000));
    // Conservative fallback.
    assert!(check_visibility_at_location(&VisibilityCriteria::Custom, 2_000_000, 3_000_000));
    // Deeply negative altitude short-circuits everything.
    assert!(!check_visibility_at_location(&VisibilityCriteria::WujudulHilal, -10_000_001, 0));
}

#[test]
fn test_visibility_levels() {
    assert_eq!(visibility_level(60_000_000_000_000, 1_000_000), 4);
    assert_eq!(visibility_level(3_000_000_000_000, 1_000_000), 3);
    assert_eq!(visibility_level(0, 1_000_000), 2);
    assert_eq!(visibility_level(-1_000_000_000_000, 1_000_000), 1);
    assert_eq!(visibility_level(-6_000_000_000_000, 1_000_000), 0);
    // Below the horizon the level is always zero.
    assert_eq!(visibility_level(60_000_000_000_000, 0), 0);
    // Binary selections are forced to match their verdict.
    assert_eq!(zone_level(&VisibilityCriteria::MABIMS, true, -6_000_000_000_000, 1_000_000), 3);
    assert_eq!(zone_level(&VisibilityCriteria::MABIMS, false, 60_000_000_000_000, 1_000_000), 0);
    assert_eq!(zone_level(&VisibilityCriteria::Odeh, false, 3_000_000_000_000, 1_000_000), 3);
}
