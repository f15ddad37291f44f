//! Javanese market-day (pasaran) and Indonesian weekday names.
//!
//! Both cycles are plain residues of the Julian Day number: the five-day
//! pasaran cycle and the seven-day week.

use vstd::prelude::*;

verus! {

/// Pasaran name for a day number.
pub open spec fn spec_pasaran(jdn: int) -> Seq<char> {
    let i: int = jdn % 5;
    if i == 0 {
        "Legi"@
    } else if i == 1 {
        "Pahing"@
    } else if i == 2 {
        "Pon"@
    } else if i == 3 {
        "Wage"@
    } else {
        "Kliwon"@
    }
}

/// Indonesian weekday name for a day number.
pub open spec fn spec_hari_indo(jdn: int) -> Seq<char> {
    let i: int = jdn % 7;
    if i == 0 {
        "Senin"@
    } else if i == 1 {
        "Selasa"@
    } else if i == 2 {
        "Rabu"@
    } else if i == 3 {
        "Kamis"@
    } else if i == 4 {
        "Jumat"@
    } else if i == 5 {
        "Sabtu"@
    } else {
        "Ahad"@
    }
}

/// Name of the five-day Javanese market day for a Julian Day number.
pub fn get_pasaran(jdn: i64) -> (r: &'static str)
    requires
        jdn >= 0,
    ensures
        r@ == spec_pasaran(jdn as int),
{
    let i: i64 = jdn % 5;
    if i == 0 {
        "Legi"
    } else if i == 1 {
        "Pahing"
    } else if i == 2 {
        "Pon"
    } else if i == 3 {
        "Wage"
    } else {
        "Kliwon"
    }
}

/// Indonesian name of the weekday for a Julian Day number.
pub fn get_hari_indo(jdn: i64) -> (r: &'static str)
    requires
        jdn >= 0,
    ensures
        r@ == spec_hari_indo(jdn as int),
{
    let i: i64 = jdn % 7;
    if i == 0 {
        "Senin"
    } else if i == 1 {
        "Selasa"
    } else if i == 2 {
        "Rabu"
    } else if i == 3 {
        "Kamis"
    } else if i == 4 {
        "Jumat"
    } else if i == 5 {
        "Sabtu"
    } else {
        "Ahad"
    }
}

/// Combined weekday and pasaran name, space separated.
pub fn get_full_day_name(jdn: i64) -> (r: String)
    requires
        jdn >= 0,
    ensures
        r@ == spec_hari_indo(jdn as int) + " "@ + spec_pasaran(jdn as int),
{
    let mut s = String::from_str(get_hari_indo(jdn));
    s.append(" ");
    s.append(get_pasaran(jdn));
    s
}

} // verus!
