//! Core value types shared across the library.
//!
//! The observer's location carries its coordinates as scaled integers:
//! latitude and longitude in microdegrees, elevation in millimetres and
//! the timezone offset in milliseconds.

use vstd::prelude::*;

verus! {

/// An observer location.
#[derive(Clone, Debug)]
pub struct GeoLocation {
    /// Display name, if any.
    pub name: Option<String>,
    /// Latitude, microdegrees, north positive.
    pub latitude_udeg: i64,
    /// Longitude, microdegrees, east positive.
    pub longitude_udeg: i64,
    /// Elevation above sea level, millimetres.
    pub elevation_mm: i64,
    /// Timezone offset east of UTC, milliseconds.
    pub timezone_ms: i64,
}

impl GeoLocation {
    /// Latitude within `[-90°, 90°]`.
    pub open spec fn latitude_ok(self) -> bool {
        -90_000_000 <= self.latitude_udeg <= 90_000_000
    }

    /// Longitude within `[-180°, 180°]`.
    pub open spec fn longitude_ok(self) -> bool {
        -180_000_000 <= self.longitude_udeg <= 180_000_000
    }

    /// Elevation within `[-500 m, 10000 m]`.
    pub open spec fn elevation_ok(self) -> bool {
        -500_000 <= self.elevation_mm <= 10_000_000
    }

    /// Timezone within `[-12 h, +14 h]`.
    pub open spec fn timezone_ok(self) -> bool {
        -43_200_000 <= self.timezone_ms <= 50_400_000
    }

    /// All four coordinate ranges hold.
    pub open spec fn wf(self) -> bool {
        self.latitude_ok() && self.longitude_ok() && self.elevation_ok() && self.timezone_ok()
    }
}

/// The named rule sets a caller can select.
#[derive(Clone, Copy, Debug, PartialEq, Eq, Structural)]
pub enum VisibilityCriteria {
    MABIMS,
    Odeh,
    WujudulHilal,
    Turkey,
    Danjon,
    Custom,
}

} // verus!
