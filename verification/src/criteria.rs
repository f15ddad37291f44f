//! Crescent-visibility rule sets.
//!
//! Each module evaluates one published rule over the measures the
//! ephemeris produces at local sunset: topocentric or geocentric moon
//! altitude and elongation (microdegrees), moon age (milliseconds), arc of
//! vision and crescent width.  Every verdict is pinned to the conjunction
//! of its component comparisons.

pub mod additional;
pub mod ijtima_qobla_ghurub;
pub mod khgt;
pub mod lfnu;
pub mod mabims;
pub mod odeh;
pub mod summary;
pub mod turkey;
pub mod wujudul_hilal;

pub use additional::{evaluate_kig, evaluate_kriteria_29, KigResult, Kriteria29Result};
pub use ijtima_qobla_ghurub::{evaluate_ijtima_qobla_ghurub, IjtimaQoblaGhuribResult};
pub use lfnu::{evaluate_lfnu, LfnuResult};
pub use mabims::{evaluate_criteria as evaluate_mabims, MabimsResult};
pub use odeh::{evaluate_odeh, OdehResult};
pub use summary::{evaluate_all_criteria, VisibilityResult, VisibilityType};
pub use turkey::{evaluate_turkey, TurkeyResult};
pub use wujudul_hilal::{evaluate_wujudul_hilal, WujudulHilalResult};
