//! Request handlers at the library boundary: input checking with exact
//! error conditions, and the calendar conversion requests.

use crate::calendar::hijri::{
    gregorian_to_hijri, hijri_to_gregorian, spec_hijri_to_jdn, spec_jd_to_hijri, HijriDate,
};
use crate::calendar::julian::{
    gregorian_to_jdn, spec_gregorian_to_jdn, spec_jdn_to_gregorian, GregorianDate,
};
use vstd::prelude::*;

verus! {

/// One rule set's verdict as the boundary reports it.
pub struct HilalCriteriaResult {
    pub criteria_name: String,
    pub is_visible: bool,
    pub visibility_type: String,
    pub additional_info: String,
}

/// Check the calendar fields of a visibility request: month and day must
/// be in calendar range, each with its fixed message.
pub fn validate_hilal_date(month: u8, day: u8) -> (r: Result<(), String>)
    ensures
        (r matches Ok(_)) == (1 <= month <= 12 && 1 <= day <= 31),
        !(1 <= month <= 12) ==> (r matches Err(e) && e@ == "Invalid month (1-12)"@),
        (1 <= month <= 12 && !(1 <= day <= 31)) ==> (r matches Err(e) && e@
            == "Invalid day (1-31)"@),
{
    if month < 1 || month > 12 {
        return Err(String::from_str("Invalid month (1-12)"));
    }
    if day < 1 || day > 31 {
        return Err(String::from_str("Invalid day (1-31)"));
    }
    Ok(())
}

/// Check the clock fields of an ephemeris request, carried in
/// milli-units so fractional hours and minutes keep their meaning.
pub fn validate_observation_time(hour_milli: i64, minute_milli: i64) -> (r: Result<(), String>)
    ensures
        (r matches Ok(_)) == (0 <= hour_milli < 24_000 && 0 <= minute_milli < 60_000),
        !(0 <= hour_milli < 24_000) ==> (r matches Err(e) && e@ == "Invalid hour (0-23)"@),
        (0 <= hour_milli < 24_000 && !(0 <= minute_milli < 60_000)) ==> (r matches Err(e) && e@
            == "Invalid minute (0-59)"@),
{
    if hour_milli < 0 || hour_milli >= 24_000 {
        return Err(String::from_str("Invalid hour (0-23)"));
    }
    if minute_milli < 0 || minute_milli >= 60_000 {
        return Err(String::from_str("Invalid minute (0-59)"));
    }
    Ok(())
}

/// Whether a Gregorian request is accepted by the Hijri conversion: the
/// fields in range and the day at or after the Hijri epoch.
pub open spec fn spec_gregorian_request_ok(year: int, month: int, day: int) -> bool {
    &&& 1 <= month <= 12
    &&& 1 <= day <= 31
    &&& 1 <= year <= 9999
    &&& spec_gregorian_to_jdn(
        GregorianDate { year: year as i32, month: month as u8, day: day as u8 },
    ) >= 1_948_441
}

/// Convert a Gregorian date to the tabular Hijri calendar, rejecting
/// out-of-range fields and pre-epoch dates with a fixed message each.
pub fn gregorian_to_hijri_command(year: i32, month: u8, day: u8) -> (r: Result<HijriDate, String>)
    ensures
        (r matches Ok(_)) == spec_gregorian_request_ok(year as int, month as int, day as int),
        r matches Ok(h) ==> h == spec_jd_to_hijri(
            spec_gregorian_to_jdn(GregorianDate { year, month, day }),
        ),
        !(1 <= month <= 12) ==> (r matches Err(e) && e@ == "Invalid Gregorian month (1-12)"@),
        (1 <= month <= 12 && !(1 <= day <= 31)) ==> (r matches Err(e) && e@
            == "Invalid Gregorian day (1-31)"@),
        (1 <= month <= 12 && 1 <= day <= 31 && !(1 <= year <= 9999)) ==> (r matches Err(e) && e@
            == "Gregorian year out of supported range (1-9999)"@),
{
    if month < 1 || month > 12 {
        return Err(String::from_str("Invalid Gregorian month (1-12)"));
    }
    if day < 1 || day > 31 {
        return Err(String::from_str("Invalid Gregorian day (1-31)"));
    }
    if year < 1 || year > 9999 {
        return Err(String::from_str("Gregorian year out of supported range (1-9999)"));
    }
    let date = GregorianDate { year, month, day };
    let jdn = gregorian_to_jdn(&date);
    if jdn < 1_948_441 {
        return Err(String::from_str("Date precedes the Hijri epoch"));
    }
    Ok(gregorian_to_hijri(&date))
}

/// Convert a tabular Hijri date to the Gregorian calendar, rejecting
/// out-of-range fields with a fixed message each.
pub fn hijri_to_gregorian_command(year: i32, month: u8, day: u8) -> (r: Result<
    GregorianDate,
    String,
>)
    ensures
        (r matches Ok(_)) == (1 <= month <= 12 && 1 <= day <= 30 && 1 <= year <= 9000),
        r matches Ok(g) ==> g == spec_jdn_to_gregorian(
            spec_hijri_to_jdn(HijriDate { year, month, day }),
        ),
        !(1 <= month <= 12) ==> (r matches Err(e) && e@ == "Invalid Hijri month (1-12)"@),
        (1 <= month <= 12 && !(1 <= day <= 30)) ==> (r matches Err(e) && e@
            == "Invalid Hijri day (1-30)"@),
        (1 <= month <= 12 && 1 <= day <= 30 && year < 1) ==> (r matches Err(e) && e@
            == "Invalid Hijri year (must be positive)"@),
        (1 <= month <= 12 && 1 <= day <= 30 && year > 9000) ==> (r matches Err(e) && e@
            == "Hijri year out of supported range (1-9000)"@),
{
    if month < 1 || month > 12 {
        return Err(String::from_str("Invalid Hijri month (1-12)"));
    }
    if day < 1 || day > 30 {
        return Err(String::from_str("Invalid Hijri day (1-30)"));
    }
    if year < 1 {
        return Err(String::from_str("Invalid Hijri year (must be positive)"));
    }
    if year > 9000 {
        return Err(String::from_str("Hijri year out of supported range (1-9000)"));
    }
    let h = HijriDate { year, month, day };
    Ok(hijri_to_gregorian(&h))
}

} // verus!
