//! The tabular Hijri calendar.
//!
//! Conversions between Hijri dates and Julian Day numbers use the
//! simplified arithmetical calendar (mean month of 29.5001 days, mean year
//! of 354.36667 days plus one-thirtieth of a day), restated over integers.
//! Working in units of 1/300000 day keeps every coefficient integral, and
//! one such unit is exactly 288 milliseconds, so results convert exactly
//! to the library's millisecond instants.

use crate::calendar::julian::{
    jdn_to_gregorian, spec_gregorian_to_jdn, spec_jdn_to_gregorian, GregorianDate,
    gregorian_to_jdn,
};
use crate::textfmt::{i64_to_string, pad2, spec_int_digits, spec_pad2};
use vstd::prelude::*;

verus! {

/// A date in the tabular Hijri calendar.
#[derive(Clone, Copy, Debug, PartialEq, Eq, Structural)]
pub struct HijriDate {
    pub year: i32,
    pub month: u8,
    pub day: u8,
}

/// The month name the calendar uses for month `m`.
pub open spec fn spec_month_name(m: int) -> Seq<char> {
    if m == 1 {
        "Muharram"@
    } else if m == 2 {
        "Safar"@
    } else if m == 3 {
        "Rabi' al-Awwal"@
    } else if m == 4 {
        "Rabi' al-Thani"@
    } else if m == 5 {
        "Jumada al-Awwal"@
    } else if m == 6 {
        "Jumada al-Thani"@
    } else if m == 7 {
        "Rajab"@
    } else if m == 8 {
        "Sha'ban"@
    } else if m == 9 {
        "Ramadan"@
    } else if m == 10 {
        "Shawwal"@
    } else if m == 11 {
        "Dhu al-Qi'dah"@
    } else if m == 12 {
        "Dhu al-Hijjah"@
    } else {
        "Unknown"@
    }
}

/// The display form of a Hijri date: zero-padded day, month name, and the
/// year prefixed with `H`.
pub open spec fn spec_formatted_hijri(h: HijriDate) -> Seq<char> {
    spec_pad2(h.day as int) + " "@ + spec_month_name(h.month as int) + " H"@ + spec_int_digits(
        h.year as int,
    )
}

impl HijriDate {
    pub fn new(year: i32, month: u8, day: u8) -> (r: Self)
        ensures
            r.year == year,
            r.month == month,
            r.day == day,
    {
        HijriDate { year, month, day }
    }

    /// Name of the Hijri month, `"Unknown"` outside `1..=12`.
    pub fn month_name(&self) -> (r: &'static str)
        ensures
            r@ == spec_month_name(self.month as int),
    {
        match self.month {
            1 => "Muharram",
            2 => "Safar",
            3 => "Rabi' al-Awwal",
            4 => "Rabi' al-Thani",
            5 => "Jumada al-Awwal",
            6 => "Jumada al-Thani",
            7 => "Rajab",
            8 => "Sha'ban",
            9 => "Ramadan",
            10 => "Shawwal",
            11 => "Dhu al-Qi'dah",
            12 => "Dhu al-Hijjah",
            _ => "Unknown",
        }
    }

    /// Format as `DD Month HYYYY`.
    pub fn to_formatted_string(&self) -> (r: String)
        requires
            self.year > i32::MIN,
        ensures
            r@ == spec_formatted_hijri(*self),
    {
        let mut s = pad2(self.day as u64);
        s.append(" ");
        s.append(self.month_name());
        s.append(" H");
        s.append(i64_to_string(self.year as i64).as_str());
        proof {
            reveal_strlit(" ");
            reveal_strlit(" H");
            assert(s@ =~= spec_formatted_hijri(*self));
        }
        s
    }
}

/// Hijri date obtained from a Julian Day number, field by field as the
/// tabular conversion computes it (scaled by 10000 so that the mean month
/// of 30.5001 days is integral).  The simplified arithmetic can yield a
/// month above 12 deep inside a 30-year cycle; the month field saturates
/// at `u8::MAX` exactly as a float-to-`u8` cast would.
pub open spec fn spec_jd_to_hijri(jdn: int) -> HijriDate {
    let n: int = jdn - 1_948_441;
    let q: int = n / 10_631;
    let r: int = n % 10_631;
    let a: int = (r + 1) * 10_000 / 305_001;
    let b: int = r * 10_000 / 305_001;
    let day: int = r + 1 - (305_001 * b + 9_999) / 10_000;
    let month: int = a + 1;
    let year: int = q * 30 + a + 1;
    HijriDate {
        year: year as i32,
        month: if month > 255 {
            255
        } else {
            month as u8
        },
        day: day as u8,
    }
}

/// Convert a Julian Day number to the tabular Hijri calendar.
///
/// The lower bound keeps the date at or after the calendar's epoch; the
/// upper bound only keeps the year arithmetic in range.
pub fn jd_to_hijri(jdn: i64) -> (r: HijriDate)
    requires
        1_948_441 <= jdn <= 100_000_000,
    ensures
        r == spec_jd_to_hijri(jdn as int),
        1 <= r.day <= 31,
        1 <= r.month,
        1 <= r.year,
{
    let n: i64 = jdn - 1_948_441;
    let q: i64 = n / 10_631;
    let r: i64 = n % 10_631;
    let a: i64 = (r + 1) * 10_000 / 305_001;
    let b: i64 = r * 10_000 / 305_001;
    let day: i64 = r + 1 - (305_001 * b + 9_999) / 10_000;
    let month: i64 = a + 1;
    let year: i64 = q * 30 + a + 1;
    HijriDate {
        year: year as i32,
        month: if month > 255 {
            255
        } else {
            month as u8
        },
        day: day as u8,
    }
}

/// Julian Day of a tabular Hijri date in units of 1/300000 day, counted so
/// that dividing by 300000 gives the astronomical Julian Day (which ends in
/// .5 at midnight).  All coefficients of the mean-month arithmetic are
/// integral at this scale.
pub open spec fn spec_hijri_to_jd_units(h: HijriDate) -> int {
    300_000 * h.day + 8_850_030 * (h.month - 1) + 106_310_001 * (h.year - 1) + 10_000 * (h.year
        - 1) + 584_531_850_000
}

/// Julian Day of a Hijri date, in milliseconds (one 1/300000-day unit is
/// exactly 288 ms).
pub fn hijri_to_jd_ms(h: &HijriDate) -> (r: i64)
    requires
        1 <= h.year <= 9000,
        1 <= h.month <= 12,
        1 <= h.day <= 31,
    ensures
        r == 288 * spec_hijri_to_jd_units(*h),
{
    let units: i64 = 300_000 * h.day as i64 + 8_850_030 * (h.month as i64 - 1) + 106_310_001 * (
    h.year as i64 - 1) + 10_000 * (h.year as i64 - 1) + 584_531_850_000;
    288 * units
}

/// Julian Day number (whole-day count) of a Hijri date: the unit count
/// rounded to the nearest whole day.
pub open spec fn spec_hijri_to_jdn(h: HijriDate) -> int {
    (spec_hijri_to_jd_units(h) + 150_000) / 300_000
}

/// Convert a tabular Hijri date to the Gregorian calendar.
pub fn hijri_to_gregorian(h: &HijriDate) -> (r: GregorianDate)
    requires
        1 <= h.year <= 9000,
        1 <= h.month <= 12,
        1 <= h.day <= 31,
    ensures
        r == spec_jdn_to_gregorian(spec_hijri_to_jdn(*h)),
        1 <= r.month <= 12,
        1 <= r.day <= 31,
{
    let units: i64 = hijri_to_jd_ms(h) / 288;
    let jdn: i64 = (units + 150_000) / 300_000;
    jdn_to_gregorian(jdn)
}

/// Convert a Gregorian date to the tabular Hijri calendar.
///
/// The date must lie at or after the Hijri epoch.
pub fn gregorian_to_hijri(g: &GregorianDate) -> (r: HijriDate)
    requires
        g.wf(),
        spec_gregorian_to_jdn(*g) >= 1_948_441,
    ensures
        r == spec_jd_to_hijri(spec_gregorian_to_jdn(*g)),
        1 <= r.day <= 31,
        1 <= r.month,
        1 <= r.year,
{
    let jdn = gregorian_to_jdn(g);
    jd_to_hijri(jdn)
}

} // verus!
