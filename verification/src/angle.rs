//! Angles as scaled integers.
//!
//! An angle is carried as a count of microdegrees (`1_000_000` per degree),
//! which resolves 0.0036 arcseconds — far below every tolerance the rule
//! sets use.  Public operations normalize longitudes, right ascensions and
//! azimuths into `[0°, 360°)` and signed differences into `(-180°, 180°]`.

use vstd::prelude::*;

verus! {

/// Microdegrees in a full circle.
pub const FULL_CIRCLE: i64 = 360_000_000;

/// Mathematical normalization of an angle into `[0, 360)` degrees,
/// stated over microdegrees with Euclidean remainder.
pub open spec fn norm360(a: int) -> int {
    a % 360_000_000
}

/// Normalize an angle in microdegrees into `[0°, 360°)`.
pub fn normalize_degrees(a: i64) -> (r: i64)
    ensures
        0 <= r < FULL_CIRCLE,
        r == norm360(a as int),
{
    let rem: i64 = a % FULL_CIRCLE;
    if rem < 0 {
        rem + FULL_CIRCLE
    } else {
        rem
    }
}

/// Normalize a signed angular difference in microdegrees into
/// `(-180°, 180°]`, keeping its residue modulo a full circle.
pub fn normalize_to_pm180(a: i64) -> (r: i64)
    ensures
        -180_000_000 < r <= 180_000_000,
        norm360(r as int) == norm360(a as int),
{
    let n = normalize_degrees(a);
    if n > 180_000_000 {
        proof {
            assert((n - 360_000_000) % 360_000_000 == n % 360_000_000);
        }
        n - FULL_CIRCLE
    } else {
        n
    }
}

} // verus!
