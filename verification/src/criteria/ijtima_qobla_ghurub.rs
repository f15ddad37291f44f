//! The conjunction-before-sunset rule (Ijtima Qobla Ghurub): the new moon
//! must fall before the local maghrib instant; nothing else is asked.

use crate::criteria::wujudul_hilal::ijtimak_before_maghrib;
use vstd::prelude::*;

verus! {

/// Verdict of the conjunction-before-sunset rule with the two instants it
/// compared.
pub struct IjtimaQoblaGhuribResult {
    pub is_visible: bool,
    /// Conjunction instant, Julian Day milliseconds.
    pub ijtimak_jd_ms: i64,
    /// Local sunset instant, Julian Day milliseconds.
    pub maghrib_jd_ms: i64,
    pub ijtimak_before_maghrib: bool,
}

/// Evaluate the conjunction-before-sunset rule.
pub fn evaluate_ijtima_qobla_ghurub(conjunction_jd_ms: i64, maghrib_jd_ms: i64) -> (r:
    IjtimaQoblaGhuribResult)
    ensures
        r.ijtimak_jd_ms == conjunction_jd_ms,
        r.maghrib_jd_ms == maghrib_jd_ms,
        r.ijtimak_before_maghrib == ijtimak_before_maghrib(
            conjunction_jd_ms as int,
            maghrib_jd_ms as int,
        ),
        r.is_visible == r.ijtimak_before_maghrib,
{
    let before = conjunction_jd_ms < maghrib_jd_ms;
    IjtimaQoblaGhuribResult {
        is_visible: before,
        ijtimak_jd_ms: conjunction_jd_ms,
        maghrib_jd_ms,
        ijtimak_before_maghrib: before,
    }
}

} // verus!
