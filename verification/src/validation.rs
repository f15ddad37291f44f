//! Validation of caller-supplied inputs at the library boundary.
//!
//! Locations are checked range by range; the result lists one message per
//! violated range, and is valid exactly when the list is empty.

use crate::types::GeoLocation;
use vstd::prelude::*;

verus! {

/// Outcome of validating a location.
pub struct ValidationResult {
    pub is_valid: bool,
    pub errors: Vec<String>,
}

/// Outcome of an astronomical self-check run.
pub struct AstronomicalValidationResult {
    pub success: bool,
    pub message: String,
    pub details: Vec<String>,
}

/// The exact list of messages `validate_location` reports.
pub open spec fn spec_location_errors(loc: GeoLocation) -> Seq<Seq<char>> {
    let e0: Seq<Seq<char>> = Seq::empty();
    let e1: Seq<Seq<char>> = if loc.latitude_ok() {
        e0
    } else {
        e0.push("Latitude must be between -90 and 90"@)
    };
    let e2: Seq<Seq<char>> = if loc.longitude_ok() {
        e1
    } else {
        e1.push("Longitude must be between -180 and 180"@)
    };
    let e3: Seq<Seq<char>> = if loc.elevation_ok() {
        e2
    } else {
        e2.push("Elevation must be between -500m and 10000m"@)
    };
    if loc.timezone_ok() {
        e3
    } else {
        e3.push("Timezone must be between -12 and +14 hours"@)
    }
}

/// Validate a location's coordinate ranges.
///
/// The verdict is valid exactly when every range holds, and the error
/// list carries one fixed message per violated range, in field order.
pub fn validate_location_command(location: &GeoLocation) -> (r: ValidationResult)
    ensures
        r.is_valid == location.wf(),
        r.errors.deep_view() == spec_location_errors(*location),
        r.is_valid == (r.errors.len() == 0),
{
    let mut errors: Vec<String> = Vec::new();
    if location.latitude_udeg < -90_000_000 || location.latitude_udeg > 90_000_000 {
        errors.push(String::from_str("Latitude must be between -90 and 90"));
    }
    if location.longitude_udeg < -180_000_000 || location.longitude_udeg > 180_000_000 {
        errors.push(String::from_str("Longitude must be between -180 and 180"));
    }
    if location.elevation_mm < -500_000 || location.elevation_mm > 10_000_000 {
        errors.push(String::from_str("Elevation must be between -500m and 10000m"));
    }
    if location.timezone_ms < -43_200_000 || location.timezone_ms > 50_400_000 {
        errors.push(String::from_str("Timezone must be between -12 and +14 hours"));
    }
    let is_valid = errors.len() == 0;
    proof {
        assert(errors.deep_view() =~= spec_location_errors(*location));
        assert(location.wf() ==> errors.deep_view().len() == 0);
        assert(!location.wf() ==> errors.deep_view().len() > 0);
    }
    ValidationResult { is_valid, errors }
}

} // verus!
