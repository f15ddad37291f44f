//! Placeholder rule sets (KIG and "Kriteria 29") whose published
//! definitions are not documented; both decline visibility and say so.

use vstd::prelude::*;

verus! {

/// Verdict of the KIG placeholder.
pub struct KigResult {
    pub is_visible: bool,
    pub note: String,
}

/// Verdict of the "Kriteria 29" placeholder.
pub struct Kriteria29Result {
    pub is_visible: bool,
    pub note: String,
}

/// The KIG rule has no documented definition; the verdict is always
/// not-visible with an explanatory note.
pub fn evaluate_kig() -> (r: KigResult)
    ensures
        !r.is_visible,
        r.note@
            == "KIG criteria: Definition not found in available documentation. Requires further research."@,
{
    KigResult {
        is_visible: false,
        note: String::from_str(
            "KIG criteria: Definition not found in available documentation. Requires further research.",
        ),
    }
}

/// The "Kriteria 29" rule has no documented definition; the verdict is
/// always not-visible with an explanatory note.
pub fn evaluate_kriteria_29() -> (r: Kriteria29Result)
    ensures
        !r.is_visible,
        r.note@ == "Kriteria 29: Definition not found in available documentation. Requires further research."@,
{
    Kriteria29Result {
        is_visible: false,
        note: String::from_str(
            "Kriteria 29: Definition not found in available documentation. Requires further research.",
        ),
    }
}

} // verus!
