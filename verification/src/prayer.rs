//! Prayer-time configuration and the formatted schedule record.
//!
//! The schedule itself reuses the positional solvers; the configuration
//! carries the conventional angles (microdegrees), margins and safety
//! corrections (milliseconds) with their standard defaults.

use vstd::prelude::*;

verus! {

/// Safety corrections (ihtiyat) added to each prayer time, milliseconds.
#[derive(Clone, Copy, Debug, PartialEq, Eq, Structural)]
pub struct IhtiyatConfig {
    pub shubuh_ms: i64,
    pub dhuha_ms: i64,
    pub dzuhur_ms: i64,
    pub ashr_ms: i64,
    pub maghrib_ms: i64,
    pub isya_ms: i64,
}

/// Angles and margins of the prayer-time computation.
#[derive(Clone, Copy, Debug, PartialEq, Eq, Structural)]
pub struct PrayerConfig {
    /// Solar depression angle for Shubuh, microdegrees.
    pub shubuh_angle_udeg: i64,
    /// Shadow-length ratio for Ashr, thousandths.
    pub ashr_shadow_ratio_milli: i64,
    /// Solar depression angle for Isya, microdegrees.
    pub isya_angle_udeg: i64,
    /// Imsak margin before Shubuh, milliseconds.
    pub imsak_margin_ms: i64,
    /// Solar altitude for Dhuha, microdegrees.
    pub dhuha_angle_udeg: i64,
    pub ihtiyat: IhtiyatConfig,
}

impl Default for PrayerConfig {
    /// The conventional defaults: 20° Shubuh, ratio 1, 18° Isya, a
    /// ten-minute Imsak margin, 4.5° Dhuha, and two minutes of safety on
    /// every time.
    fn default() -> (r: Self)
        ensures
            r.shubuh_angle_udeg == 20_000_000,
            r.ashr_shadow_ratio_milli == 1_000,
            r.isya_angle_udeg == 18_000_000,
            r.imsak_margin_ms == 600_000,
            r.dhuha_angle_udeg == 4_500_000,
            r.ihtiyat.shubuh_ms == 120_000,
            r.ihtiyat.dhuha_ms == 120_000,
            r.ihtiyat.dzuhur_ms == 120_000,
            r.ihtiyat.ashr_ms == 120_000,
            r.ihtiyat.maghrib_ms == 120_000,
            r.ihtiyat.isya_ms == 120_000,
    {
        PrayerConfig {
            shubuh_angle_udeg: 20_000_000,
            ashr_shadow_ratio_milli: 1_000,
            isya_angle_udeg: 18_000_000,
            imsak_margin_ms: 600_000,
            dhuha_angle_udeg: 4_500_000,
            ihtiyat: IhtiyatConfig {
                shubuh_ms: 120_000,
                dhuha_ms: 120_000,
                dzuhur_ms: 120_000,
                ashr_ms: 120_000,
                maghrib_ms: 120_000,
                isya_ms: 120_000,
            },
        }
    }
}

/// One day's formatted prayer schedule.
pub struct PrayerTimes {
    pub imsak: String,
    pub shubuh: String,
    pub terbit: String,
    pub dhuha: String,
    pub dzuhur: String,
    pub ashr: String,
    pub maghrib: String,
    pub isya: String,
    pub tengah_malam: String,
    pub p3_malam: String,
}

} // verus!
