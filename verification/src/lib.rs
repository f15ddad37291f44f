//! Crescent-visibility (hilal) computation library.
//!
//! The library models angles, instants and durations as scaled integers:
//! angles in microdegrees, instants as Julian Day expressed in milliseconds,
//! clock times as milliseconds since local midnight.  The floating-point
//! ephemeris that produces the raw measures lives outside the library; every
//! decision taken on those measures — calendar arithmetic, horizon-crossing
//! detection, solver acceptance and the visibility rule sets — is verified
//! here.

pub mod angle;
pub mod calendar;
pub mod clock;
pub mod commands;
pub mod conjunction;
pub mod criteria;
pub mod hilal;
pub mod horizon;
pub mod map;
pub mod prayer;
pub mod textfmt;
pub mod types;
pub mod validation;

pub use calendar::hijri::HijriDate;
pub use calendar::julian::GregorianDate;
pub use types::{GeoLocation, VisibilityCriteria};
