//! Solver decisions: sunset fixed point, moonset sampling, conjunction
//! refinement and acceptance.

use hilal::angle::{normalize_degrees, normalize_to_pm180};
use hilal::clock::normalize_clock_ms;
use hilal::conjunction::{
    estimate_conjunction_time, finish_conjunction, refine_step, should_stop, Conjunction,
    ConjunctionOutcome, RefinementConfig, LUNAR_MONTH_CENTIDAYS,
};
use hilal::hilal::{calculate_phase_angle, moon_age_at_sunset, moon_age_topocentric_ms};
use hilal::horizon::{calculate_sunset, find_setting_time, HorizonEvent, HourAngleOutcome, SunsetStep};

#[test]
fn test_lunar_month_constant() {
    assert!((LUNAR_MONTH_CENTIDAYS as f64 / 100.0 - 29.53).abs() < 0.01);
}

#[test]
fn test_estimate_progression() {
    // J2000.0 noon in milliseconds.
    let jd1: i64 = 2451545 * 86_400_000;
    let est1 = estimate_conjunction_time(jd1, 250_000);

    let jd2 = jd1 + 86_400_000;
    let est2 = estimate_conjunction_time(jd2, 284_000);

    assert!(est1 > 0);
    assert!(est2 > 0);
}

#[test]
fn test_estimate_half_cycle() {
    // Half a synodic cycle is walked back exactly.
    let jd: i64 = 212_638_132_800_000;
    assert_eq!(estimate_conjunction_time(jd, 500_000), jd - 1_275_696_000);
    assert_eq!(estimate_conjunction_time(jd, 0), jd);
}

#[test]
fn test_refinement_config_default() {
    let config = RefinementConfig::default();
    assert_eq!(config.max_iterations, 10);
    // The tolerance stays below 1e-4 day.
    assert!(config.tolerance_ms < 8640);
}

#[test]
fn test_should_stop_rule() {
    let config = RefinementConfig::default();
    assert!(should_stop(0, 0, &config));
    assert!(should_stop(12_000_000, 10, &config));
    assert!(!should_stop(12_000_000, 9, &config));
}

#[test]
fn test_refine_step_exact_correction() {
    let config = RefinementConfig::default();
    let jd: i64 = 212_638_132_800_000;
    // One degree ahead with the moon gaining twelve degrees a day: the
    // correction is exactly two hours back.
    let (next, converged) = refine_step(jd, 1_000_000, 12_000_000, &config);
    assert_eq!(next, jd - 7_200_000);
    assert!(!converged);

    // Five microdegrees left: a 36 ms step, converged.
    let (next2, converged2) = refine_step(jd, 5, 12_000_000, &config);
    assert_eq!(next2, jd - 36);
    assert!(converged2);

    // A negative difference moves forward.
    let (next3, _) = refine_step(jd, -1_000_000, 12_000_000, &config);
    assert_eq!(next3, jd + 7_200_000);
}

#[test]
fn test_finish_conjunction_acceptance() {
    let jd: i64 = 212_638_132_800_000;
    match finish_conjunction(jd, 500, true) {
        ConjunctionOutcome::Converged(c) => {
            assert_eq!(c.jd_utc_ms, jd);
            assert_eq!(c.elongation_ndeg, 500);
            assert_eq!((c.year, c.month, c.day), (2026, 2, 18));
        },
        ConjunctionOutcome::NotConverged => panic!("should converge"),
    }
    // A residual at or above one microdegree is rejected.
    assert!(matches!(finish_conjunction(jd, 1_500, true), ConjunctionOutcome::NotConverged));
    // So is a search whose step never converged.
    assert!(matches!(finish_conjunction(jd, 0, false), ConjunctionOutcome::NotConverged));
}

#[test]
fn test_conjunction_conversion() {
    let conj = Conjunction { jd_utc_ms: 212_638_132_800_000, year: 2026, month: 2, day: 18, elongation_ndeg: 100 };
    let date = conj.to_gregorian_date();
    assert_eq!(date.year, 2026);
    assert_eq!(date.month, 2);
}

#[test]
fn test_sunset_step() {
    // EoT zero, a 6.5-hour half-arc and no zone offset give 18:30.
    let r = calculate_sunset(64_800_000, 0, &HourAngleOutcome::Possible(23_400_000), 0);
    match r {
        SunsetStep::Step { next_local_ms, converged } => {
            assert_eq!(next_local_ms, 66_600_000);
            assert!(!converged);
        },
        SunsetStep::NoSunset => panic!("expected a step"),
    }

    // Feeding the result back converges (the measures did not move).
    let r2 = calculate_sunset(66_600_000, 0, &HourAngleOutcome::Possible(23_400_000), 0);
    match r2 {
        SunsetStep::Step { next_local_ms, converged } => {
            assert_eq!(next_local_ms, 66_600_000);
            assert!(converged);
        },
        SunsetStep::NoSunset => panic!("expected a step"),
    }

    // Beyond the polar circle the hour-angle equation has no solution.
    assert_eq!(
        calculate_sunset(64_800_000, 0, &HourAngleOutcome::NoCrossing, 0),
        SunsetStep::NoSunset
    );
}

#[test]
fn test_find_setting_time_interpolates() {
    // Samples at minutes 1080, 1081, 1082: the altitude falls through
    // zero between the last two; the crossing sits a quarter minute
    // before minute 1082.
    let samples: Vec<i64> = vec![5_000, 3_000, -1_000];
    match find_setting_time(&samples, 1080) {
        HorizonEvent::At(t) => assert_eq!(t, 1082 * 60_000 - 15_000),
        HorizonEvent::NoEvent => panic!("expected a crossing"),
    }
}

#[test]
fn test_find_setting_time_no_event() {
    // A body that never sets in the window.
    let samples: Vec<i64> = vec![5_000, 4_000, 3_000, 2_000];
    assert_eq!(find_setting_time(&samples, 720), HorizonEvent::NoEvent);
    // Or one that never rose: no descent either.
    let below: Vec<i64> = vec![-5_000, -4_000];
    assert_eq!(find_setting_time(&below, 720), HorizonEvent::NoEvent);
}

#[test]
fn test_find_setting_time_takes_first_crossing() {
    let samples: Vec<i64> = vec![2_000, -2_000, 1_000, -3_000];
    match find_setting_time(&samples, 0) {
        HorizonEvent::At(t) => assert_eq!(t, 60_000 - 30_000),
        HorizonEvent::NoEvent => panic!("expected a crossing"),
    }
}

#[test]
fn test_normalization_ranges() {
    assert_eq!(normalize_degrees(-90_000_000), 270_000_000);
    assert_eq!(normalize_degrees(720_000_005), 5);
    assert_eq!(normalize_degrees(359_999_999), 359_999_999);
    assert_eq!(normalize_to_pm180(270_000_000), -90_000_000);
    assert_eq!(normalize_to_pm180(180_000_000), 180_000_000);
    assert_eq!(normalize_to_pm180(-190_000_000), 170_000_000);
    assert_eq!(normalize_clock_ms(-3_600_000), 82_800_000);
    assert_eq!(normalize_clock_ms(90_000_000), 3_600_000);
}

#[test]
fn test_moon_age_and_phase_angle() {
    assert_eq!(moon_age_at_sunset(1_000_000, 400_000), 600_000);
    // The conjunction after sunset gives a negative age.
    assert_eq!(moon_age_at_sunset(400_000, 1_000_000), -600_000);
    assert_eq!(calculate_phase_angle(11_096_000), 168_904_000);
}

#[test]
fn test_topocentric_age_blend() {
    // The reference elongation (11.096 deg) alone gives 78,641,139 ms at
    // the mean synodic rate; blended 92:8 with the geocentric age.
    let age = moon_age_topocentric_ms(11_096_000, 79_045_200);
    assert_eq!(age, 78_673_463);
    // A deeply negative geocentric age cannot drive the result below
    // zero.
    assert_eq!(moon_age_topocentric_ms(0, -1_000_000_000_000), 0);
}
