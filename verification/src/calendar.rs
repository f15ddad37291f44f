//! Calendar arithmetic: Gregorian dates, Julian Day numbers, the tabular
//! Hijri calendar and Javanese day names.

pub mod hijri;
pub mod javanese;
pub mod julian;

pub use hijri::{gregorian_to_hijri, hijri_to_gregorian, HijriDate};
pub use julian::{gregorian_to_jdn, jdn_to_gregorian, GregorianDate};
