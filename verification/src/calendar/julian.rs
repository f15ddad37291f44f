//! Gregorian dates and Julian Day numbers.
//!
//! The library counts whole days with the Julian Day *number* of a calendar
//! day: the integer `jdn` such that the day runs from `jdn - 0.5` to
//! `jdn + 0.5` in astronomical Julian Days, i.e. the day's Julian Day at
//! noon UT.  Instants inside a day are carried separately, as milliseconds
//! (see `instant`).  The conversions below follow the classical arithmetic
//! (Meeus, chapter 7) restated over integers, where every division is exact
//! floor division on nonnegative operands.

use vstd::prelude::*;

verus! {

/// A proleptic Gregorian calendar day.
#[derive(Clone, Copy, Debug, PartialEq, Eq, Structural)]
pub struct GregorianDate {
    pub year: i32,
    pub month: u8,
    pub day: u8,
}

impl GregorianDate {
    /// The fields form a date the conversions accept: a year the day
    /// arithmetic cannot overflow on, and month and day in calendar range.
    pub open spec fn wf(self) -> bool {
        &&& 1 <= self.year <= 9999
        &&& 1 <= self.month <= 12
        &&& 1 <= self.day <= 31
    }

    pub fn new(year: i32, month: u8, day: u8) -> (r: GregorianDate)
        ensures
            r.year == year,
            r.month == month,
            r.day == day,
    {
        GregorianDate { year, month, day }
    }
}

/// Julian Day number of a Gregorian date, as the conversion computes it.
pub open spec fn spec_gregorian_to_jdn(d: GregorianDate) -> int {
    let y: int = if d.month <= 2 {
        d.year - 1
    } else {
        d.year as int
    };
    let m: int = if d.month <= 2 {
        d.month + 12
    } else {
        d.month as int
    };
    let a: int = y / 100;
    let b: int = 2 - a + a / 4;
    1461 * (y + 4716) / 4 + 306 * (m + 1) / 10 + d.day + b - 1524
}

/// Julian Day number of the start of a Gregorian day.
///
/// Equals the classical `floor(JD + 0.5)` where `JD` is the Julian Day of
/// the date at `0h` UT.
pub fn gregorian_to_jdn(d: &GregorianDate) -> (r: i64)
    requires
        d.wf(),
    ensures
        r == spec_gregorian_to_jdn(*d),
        1_721_426 <= r <= 5_373_556,
        d.year >= 1583 && d.day <= spec_days_in_month(d.year as int, d.month as int)
            ==> spec_jdn_to_gregorian(r as int) == *d,
{
    proof {
        if d.year >= 1583 && d.day <= spec_days_in_month(d.year as int, d.month as int) {
            lemma_gregorian_roundtrip(*d);
        }
    }
    let (y, m): (i64, i64) = if d.month <= 2 {
        (d.year as i64 - 1, d.month as i64 + 12)
    } else {
        (d.year as i64, d.month as i64)
    };
    let a: i64 = y / 100;
    let b: i64 = 2 - a + a / 4;
    1461 * (y + 4716) / 4 + 306 * (m + 1) / 10 + d.day as i64 + b - 1524
}

/// The date recovered from a Julian Day number, as the inverse conversion
/// computes it field by field.
pub open spec fn spec_jdn_to_gregorian(jdn: int) -> GregorianDate {
    let a: int = if jdn < 2_299_161 {
        jdn
    } else {
        let alpha: int = (jdn * 100 - 186_721_625) / 3_652_425;
        jdn + 1 + alpha - alpha / 4
    };
    let b: int = a + 1524;
    let c: int = (b * 100 - 12_210) / 36_525;
    let d: int = 1461 * c / 4;
    let e: int = (b - d) * 10_000 / 306_001;
    let day: int = b - d - 306_001 * e / 10_000;
    let month: int = if e < 14 {
        e - 1
    } else {
        e - 13
    };
    let year: int = if month > 2 {
        c - 4716
    } else {
        c - 4715
    };
    GregorianDate { year: year as i32, month: month as u8, day: day as u8 }
}

/// The Gregorian leap-year rule.
pub open spec fn spec_is_leap_year(y: int) -> bool {
    y % 4 == 0 && (y % 100 != 0 || y % 400 == 0)
}

/// Length of a calendar month.
pub open spec fn spec_days_in_month(y: int, m: int) -> int {
    if m == 2 {
        if spec_is_leap_year(y) {
            29
        } else {
            28
        }
    } else if m == 4 || m == 6 || m == 9 || m == 11 {
        30
    } else {
        31
    }
}

/// The two conversions invert each other on real calendar dates:
/// converting a date after the 1582 calendar switch to its day number
/// and back returns the same date.
#[verifier::rlimit(100)]
pub proof fn lemma_gregorian_roundtrip(d: GregorianDate)
    requires
        1583 <= d.year <= 9999,
        1 <= d.month <= 12,
        1 <= d.day <= spec_days_in_month(d.year as int, d.month as int),
    ensures
        spec_jdn_to_gregorian(spec_gregorian_to_jdn(d)) == d,
{
    let y: int = if d.month <= 2 {
        d.year - 1
    } else {
        d.year as int
    };
    let m: int = if d.month <= 2 {
        d.month + 12
    } else {
        d.month as int
    };
    let a2 = y / 100;
    let j = spec_gregorian_to_jdn(d);
    assert(2_299_239 <= j <= 5_373_484);

    let alpha = (j * 100 - 186_721_625) / 3_652_425;
    let a = j + 1 + alpha - alpha / 4;
    let b = a + 1524;
    let c = (b * 100 - 12_210) / 36_525;
    let dd = 1461 * c / 4;
    let e = (b - dd) * 10_000 / 306_001;

    assert(alpha == a2 - 4 || alpha == a2 - 5);
    assert(c == y + 4716);
    assert(e == m + 1);
    assert(b - dd - 306_001 * e / 10_000 == d.day);
    assert(spec_jdn_to_gregorian(j) == d);
}

/// The two conversions invert each other on the day-number side of the
/// Gregorian-calendar range: converting a day number to a date and back
/// returns the same day number.  (Below the 1582 calendar switch the inverse reads the
/// Julian calendar while the forward map stays proleptic Gregorian, so
/// the law starts at the switch.)
#[verifier::rlimit(100)]
pub proof fn lemma_jdn_roundtrip(jdn: int)
    requires
        2_299_161 <= jdn <= 5_373_557,
    ensures
        spec_gregorian_to_jdn(spec_jdn_to_gregorian(jdn)) == jdn,
{
    let alpha = (jdn * 100 - 186_721_625) / 3_652_425;
    let a = jdn + 1 + alpha - alpha / 4;
    let b = a + 1524;
    let c = (b * 100 - 12_210) / 36_525;
    let d = 1461 * c / 4;
    let e = (b - d) * 10_000 / 306_001;
    let day = b - d - 306_001 * e / 10_000;
    assert(11 <= alpha <= 96);
    assert(2_300_000 <= b <= 5_376_000);
    assert(6296 <= c <= 14_718);
    assert(123 <= b - d <= 489);
    assert(4 <= e <= 15);
    let date = spec_jdn_to_gregorian(jdn);
    let y: int = if date.month <= 2 {
        date.year - 1
    } else {
        date.year as int
    };
    let m: int = if date.month <= 2 {
        date.month + 12
    } else {
        date.month as int
    };
    assert(y == c - 4716);
    assert(m == e - 1);
    assert(1461 * (y + 4716) / 4 == d);
    assert(306 * (m + 1) / 10 == 306_001 * e / 10_000);
    let a2 = y / 100;
    assert(a2 - a2 / 4 == alpha - alpha / 4 + 3);
    assert(spec_gregorian_to_jdn(date) == d + 306 * (m + 1) / 10 + day + 2 - a2 + a2 / 4 - 1524);
}

/// Convert a Julian Day number back to the Gregorian calendar.
pub fn jdn_to_gregorian(jdn: i64) -> (r: GregorianDate)
    requires
        1_721_426 <= jdn <= 5_373_557,
    ensures
        r == spec_jdn_to_gregorian(jdn as int),
        1 <= r.month <= 12,
        1 <= r.day <= 31,
        jdn >= 2_299_161 ==> spec_gregorian_to_jdn(r) == jdn,
{
    proof {
        if jdn >= 2_299_161 {
            lemma_jdn_roundtrip(jdn as int);
        }
    }
    let a: i64 = if jdn < 2_299_161 {
        jdn
    } else {
        let alpha: i64 = (jdn * 100 - 186_721_625) / 3_652_425;
        jdn + 1 + alpha - alpha / 4
    };
    let b: i64 = a + 1524;
    let c: i64 = (b * 100 - 12_210) / 36_525;
    let d: i64 = 1461 * c / 4;
    let e: i64 = (b - d) * 10_000 / 306_001;
    let day: i64 = b - d - 306_001 * e / 10_000;
    let month: i64 = if e < 14 {
        e - 1
    } else {
        e - 13
    };
    let year: i64 = if month > 2 {
        c - 4716
    } else {
        c - 4715
    };
    GregorianDate { year: year as i32, month: month as u8, day: day as u8 }
}

} // verus!
