//! Clock and number formatting, and location validation.

use hilal::clock::{
    calculate_lag_time, format_jd_to_datetime, format_jd_to_local_time, format_time,
    format_timezone_label, jdn_start_ms, weekday_name,
};
use hilal::textfmt::{fixed2_of_micro, fixed3_of_e13, hours1_of_ms, i64_to_string, u64_to_string};
use hilal::types::GeoLocation;
use hilal::validation::validate_location_command;

#[test]
fn test_timezone_label_formatting() {
    assert_eq!(format_timezone_label(25_200_000), "UTC+07:00");
    assert_eq!(format_timezone_label(32_400_000), "UTC+09:00");
    assert_eq!(format_timezone_label(-18_000_000), "UTC-05:00");
    assert_eq!(format_timezone_label(19_800_000), "UTC+05:30");
    assert_eq!(format_timezone_label(0), "UTC+00:00");
}

#[test]
fn test_lag_time_formatting() {
    // Moonset a quarter hour before sunset.
    let lag = calculate_lag_time(66_600_000, 65_700_000);
    assert!(lag.contains("-"));
    assert_eq!(lag, "-0h 15m 00s");
    // The reference lag of -3m 42s.
    assert_eq!(calculate_lag_time(65_826_000, 65_604_000), "-0h 03m 42s");
    assert_eq!(calculate_lag_time(65_700_000, 66_600_000), "+0h 15m 00s");
}

#[test]
fn test_format_time_display() {
    // The reference sunset, 18.285 h, displays as 18:17.
    assert_eq!(format_time(65_826_000), "18:17");
    assert_eq!(format_time(0), "00:00");
    assert_eq!(format_time(-1), "Invalid");
    assert_eq!(format_time(86_400_000), "Invalid");
    // Seconds rounding carries into the minute and hour fields.
    assert_eq!(format_time(3_599_700), "01:00");
}

#[test]
fn test_number_rendering() {
    assert_eq!(u64_to_string(0), "0");
    assert_eq!(u64_to_string(90210), "90210");
    assert_eq!(i64_to_string(-42), "-42");
    assert_eq!(fixed2_of_micro(8_653_000), "8.65");
    assert_eq!(fixed2_of_micro(-1_117_200), "-1.12");
    assert_eq!(hours1_of_ms(79_045_200), "22.0");
    assert_eq!(hours1_of_ms(-7_320_000), "-2.0");
    assert_eq!(fixed3_of_e13(85_274_000_000_000), "8.527");
    assert_eq!(fixed3_of_e13(-140_000_000_000), "-0.014");
}

#[test]
fn test_jd_datetime_display() {
    // 2026-02-18 fell on a Wednesday; sunset 11:17:06 UT is 18:17:06 at
    // UTC+7.
    let day_start = jdn_start_ms(2_461_090);
    let sunset = day_start + 40_626_000;
    assert_eq!(weekday_name(sunset), "Wednesday");
    assert_eq!(format_jd_to_datetime(sunset, 25_200_000), "Wednesday : 18:17:06 UTC+07:00");
    assert_eq!(format_jd_to_local_time(sunset, 25_200_000), "06:17:06 UTC+07:00");
}

#[test]
fn test_invalid_hour() {
    let result = hilal::commands::validate_observation_time(25_000, 0);
    assert!(result.is_err());
}

#[test]
fn test_valid_input() {
    let result = hilal::commands::validate_observation_time(12_000, 0);
    assert!(result.is_ok());
}

#[test]
fn test_valid_location() {
    let location = GeoLocation {
        name: None,
        latitude_udeg: -6_200_000,
        longitude_udeg: 106_800_000,
        elevation_mm: 0,
        timezone_ms: 25_200_000,
    };

    let result = validate_location_command(&location);
    assert!(result.is_valid);
    assert!(result.errors.is_empty());
}

#[test]
fn test_invalid_latitude() {
    let location = GeoLocation {
        name: None,
        latitude_udeg: 91_000_000,
        longitude_udeg: 0,
        elevation_mm: 0,
        timezone_ms: 0,
    };

    let result = validate_location_command(&location);
    assert!(!result.is_valid);
    assert!(!result.errors.is_empty());
}

#[test]
fn test_invalid_longitude() {
    let location = GeoLocation {
        name: None,
        latitude_udeg: 0,
        longitude_udeg: 181_000_000,
        elevation_mm: 0,
        timezone_ms: 0,
    };

    let result = validate_location_command(&location);
    assert!(!result.is_valid);
    assert!(!result.errors.is_empty());
}

#[test]
fn test_every_range_violated() {
    let location = GeoLocation {
        name: Some(String::from("nowhere")),
        latitude_udeg: 95_000_000,
        longitude_udeg: -181_000_000,
        elevation_mm: 20_000_000,
        timezone_ms: 90_000_000,
    };

    let result = validate_location_command(&location);
    assert!(!result.is_valid);
    assert_eq!(result.errors.len(), 4);
    assert_eq!(result.errors[0], "Latitude must be between -90 and 90");
    assert_eq!(result.errors[3], "Timezone must be between -12 and +14 hours");
}
