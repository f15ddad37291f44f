//! Verified construction of decimal text.
//!
//! Every formatting routine in the library reduces to these helpers: a
//! digit table, unsigned and signed decimal rendering, and two-digit
//! zero-padded fields for clock displays.  Each function's contract pins
//! the exact character sequence produced.

use vstd::prelude::*;

verus! {

/// The decimal digit character for `d` in `0..=9`.
pub open spec fn digit_char(d: int) -> char {
    if d == 0 {
        '0'
    } else if d == 1 {
        '1'
    } else if d == 2 {
        '2'
    } else if d == 3 {
        '3'
    } else if d == 4 {
        '4'
    } else if d == 5 {
        '5'
    } else if d == 6 {
        '6'
    } else if d == 7 {
        '7'
    } else if d == 8 {
        '8'
    } else {
        '9'
    }
}

/// Decimal digit sequence of a nonnegative integer, most significant first.
pub open spec fn spec_digits(n: int) -> Seq<char>
    decreases n,
{
    if n < 10 {
        seq![digit_char(n)]
    } else {
        spec_digits(n / 10) + seq![digit_char(n % 10)]
    }
}

/// Decimal rendering of a possibly negative integer.
pub open spec fn spec_int_digits(n: int) -> Seq<char> {
    if n < 0 {
        seq!['-'] + spec_digits(-n)
    } else {
        spec_digits(n)
    }
}

/// Two-character zero-padded rendering of `n` (wider if `n >= 100`).
pub open spec fn spec_pad2(n: int) -> Seq<char> {
    if n < 10 {
        seq!['0'] + spec_digits(n)
    } else {
        spec_digits(n)
    }
}

/// Three-character zero-padded rendering of `n` (wider if `n >= 1000`).
pub open spec fn spec_pad3(n: int) -> Seq<char> {
    if n < 10 {
        seq!['0', '0'] + spec_digits(n)
    } else if n < 100 {
        seq!['0'] + spec_digits(n)
    } else {
        spec_digits(n)
    }
}

/// A signed fixed-point rendering with two decimal places: the value
/// `scaled / 10^6` (e.g. microdegrees) rounded to hundredths.
pub open spec fn spec_fixed2_of_micro(scaled: int) -> Seq<char> {
    let a: int = if scaled < 0 {
        -scaled
    } else {
        scaled
    };
    let c: int = (a + 5_000) / 10_000;
    let sign: Seq<char> = if scaled < 0 {
        seq!['-']
    } else {
        Seq::empty()
    };
    sign + spec_digits(c / 100) + "."@ + spec_pad2(c % 100)
}

/// A signed fixed-point rendering with one decimal place of a duration in
/// milliseconds shown as hours.
pub open spec fn spec_hours1_of_ms(ms: int) -> Seq<char> {
    let a: int = if ms < 0 {
        -ms
    } else {
        ms
    };
    let d: int = (a + 180_000) / 360_000;
    let sign: Seq<char> = if ms < 0 {
        seq!['-']
    } else {
        Seq::empty()
    };
    sign + spec_digits(d / 10) + "."@ + spec_digits(d % 10)
}

/// A signed fixed-point rendering with three decimal places of a value in
/// units of 1e-13 (the visual-acuity score scale) shown in ones.
pub open spec fn spec_fixed3_of_e13(scaled: int) -> Seq<char> {
    let a: int = if scaled < 0 {
        -scaled
    } else {
        scaled
    };
    let c: int = (a + 5_000_000_000) / 10_000_000_000;
    let sign: Seq<char> = if scaled < 0 {
        seq!['-']
    } else {
        Seq::empty()
    };
    sign + spec_digits(c / 1000) + "."@ + spec_pad3(c % 1000)
}

/// A signed fixed-point rendering with two decimal places of a width in
/// milli-arcminutes shown in arcminutes.
pub open spec fn spec_fixed2_of_milli(scaled: int) -> Seq<char> {
    let a: int = if scaled < 0 {
        -scaled
    } else {
        scaled
    };
    let c: int = (a + 5) / 10;
    let sign: Seq<char> = if scaled < 0 {
        seq!['-']
    } else {
        Seq::empty()
    };
    sign + spec_digits(c / 100) + "."@ + spec_pad2(c % 100)
}

/// Single decimal digit as a string slice.
fn digit_str(d: u64) -> (r: &'static str)
    requires
        d < 10,
    ensures
        r@ == seq![digit_char(d as int)],
{
    let r: &'static str = match d {
        0 => "0",
        1 => "1",
        2 => "2",
        3 => "3",
        4 => "4",
        5 => "5",
        6 => "6",
        7 => "7",
        8 => "8",
        _ => "9",
    };
    proof {
        reveal_strlit("0");
        reveal_strlit("1");
        reveal_strlit("2");
        reveal_strlit("3");
        reveal_strlit("4");
        reveal_strlit("5");
        reveal_strlit("6");
        reveal_strlit("7");
        reveal_strlit("8");
        reveal_strlit("9");
        assert(r@ =~= seq![digit_char(d as int)]);
    }
    r
}

/// Decimal rendering of an unsigned value.
pub fn u64_to_string(n: u64) -> (r: String)
    ensures
        r@ == spec_digits(n as int),
    decreases n,
{
    if n < 10 {
        String::from_str(digit_str(n))
    } else {
        let mut s = u64_to_string(n / 10);
        s.append(digit_str(n % 10));
        s
    }
}

/// Decimal rendering of a signed value, with a leading minus sign when
/// negative.
pub fn i64_to_string(n: i64) -> (r: String)
    requires
        n > i64::MIN,
    ensures
        r@ == spec_int_digits(n as int),
{
    if n < 0 {
        let mut s = String::from_str("-");
        let m: u64 = (-n) as u64;
        s.append(u64_to_string(m).as_str());
        proof {
            reveal_strlit("-");
            assert(s@ =~= spec_int_digits(n as int));
        }
        s
    } else {
        u64_to_string(n as u64)
    }
}

/// Zero-padded three-digit field, for millesimal decimal places.
pub fn pad3(n: u64) -> (r: String)
    ensures
        r@ == spec_pad3(n as int),
{
    if n < 10 {
        let mut s = String::from_str("00");
        s.append(digit_str(n));
        proof {
            reveal_strlit("00");
            assert(s@ =~= spec_pad3(n as int));
        }
        s
    } else if n < 100 {
        let mut s = String::from_str("0");
        s.append(u64_to_string(n).as_str());
        proof {
            reveal_strlit("0");
            assert(s@ =~= spec_pad3(n as int));
        }
        s
    } else {
        let r = u64_to_string(n);
        proof {
            assert(r@ =~= spec_pad3(n as int));
        }
        r
    }
}

/// Render `scaled / 10^6` with two rounded decimals (used for angles in
/// microdegrees).
pub fn fixed2_of_micro(scaled: i64) -> (r: String)
    requires
        -9_200_000_000_000_000_000 <= scaled <= 9_200_000_000_000_000_000,
    ensures
        r@ == spec_fixed2_of_micro(scaled as int),
{
    let a: i64 = if scaled < 0 {
        -scaled
    } else {
        scaled
    };
    let c: i64 = (a + 5_000) / 10_000;
    let mut s = if scaled < 0 {
        String::from_str("-")
    } else {
        String::new()
    };
    s.append(u64_to_string((c / 100) as u64).as_str());
    s.append(".");
    s.append(pad2((c % 100) as u64).as_str());
    proof {
        reveal_strlit("-");
        reveal_strlit(".");
        assert(s@ =~= spec_fixed2_of_micro(scaled as int));
    }
    s
}

/// Render a duration in milliseconds as hours with one rounded decimal.
pub fn hours1_of_ms(ms: i64) -> (r: String)
    requires
        -9_200_000_000_000_000_000 <= ms <= 9_200_000_000_000_000_000,
    ensures
        r@ == spec_hours1_of_ms(ms as int),
{
    let a: i64 = if ms < 0 {
        -ms
    } else {
        ms
    };
    let d: i64 = (a + 180_000) / 360_000;
    let mut s = if ms < 0 {
        String::from_str("-")
    } else {
        String::new()
    };
    s.append(u64_to_string((d / 10) as u64).as_str());
    s.append(".");
    s.append(u64_to_string((d % 10) as u64).as_str());
    proof {
        reveal_strlit("-");
        reveal_strlit(".");
        assert(s@ =~= spec_hours1_of_ms(ms as int));
    }
    s
}

/// Render a score in units of 1e-13 with three rounded decimals.
pub fn fixed3_of_e13(scaled: i64) -> (r: String)
    requires
        -9_200_000_000_000_000_000 <= scaled <= 9_200_000_000_000_000_000,
    ensures
        r@ == spec_fixed3_of_e13(scaled as int),
{
    let a: i64 = if scaled < 0 {
        -scaled
    } else {
        scaled
    };
    let c: i64 = (a + 5_000_000_000) / 10_000_000_000;
    let mut s = if scaled < 0 {
        String::from_str("-")
    } else {
        String::new()
    };
    s.append(u64_to_string((c / 1000) as u64).as_str());
    s.append(".");
    s.append(pad3((c % 1000) as u64).as_str());
    proof {
        reveal_strlit("-");
        reveal_strlit(".");
        assert(s@ =~= spec_fixed3_of_e13(scaled as int));
    }
    s
}

/// Render a width in milli-units with two rounded decimals (used for the
/// crescent width in milli-arcminutes).
pub fn fixed2_of_milli(scaled: i64) -> (r: String)
    requires
        -9_200_000_000_000_000_000 <= scaled <= 9_200_000_000_000_000_000,
    ensures
        r@ == spec_fixed2_of_milli(scaled as int),
{
    let a: i64 = if scaled < 0 {
        -scaled
    } else {
        scaled
    };
    let c: i64 = (a + 5) / 10;
    let mut s = if scaled < 0 {
        String::from_str("-")
    } else {
        String::new()
    };
    s.append(u64_to_string((c / 100) as u64).as_str());
    s.append(".");
    s.append(pad2((c % 100) as u64).as_str());
    proof {
        reveal_strlit("-");
        reveal_strlit(".");
        assert(s@ =~= spec_fixed2_of_milli(scaled as int));
    }
    s
}

/// Zero-padded two-digit field, as clock displays use.
pub fn pad2(n: u64) -> (r: String)
    ensures
        r@ == spec_pad2(n as int),
{
    if n < 10 {
        let mut s = String::from_str("0");
        s.append(digit_str(n));
        proof {
            reveal_strlit("0");
            assert(s@ =~= spec_pad2(n as int));
        }
        s
    } else {
        u64_to_string(n)
    }
}

} // verus!
