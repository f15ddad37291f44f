//! Instants and clock-time formatting.
//!
//! An instant is an astronomical Julian Day carried in milliseconds
//! (`jd_ms = round(JD * 86_400_000)`); a millisecond resolves about 1e-8
//! day, far below the solvers' day-fraction tolerances.  Clock times and
//! timezone offsets are milliseconds as well.  The formatting routines
//! mirror the classical displays (HH:MM, HH:MM:SS, lag times, timezone
//! labels) with exact character-level contracts.

use crate::textfmt::{pad2, spec_digits, spec_pad2, u64_to_string};
use vstd::prelude::*;

verus! {

/// Milliseconds in one day.
pub const MS_PER_DAY: i64 = 86_400_000;

/// Milliseconds in one hour.
pub const MS_PER_HOUR: i64 = 3_600_000;

/// Milliseconds in one minute.
pub const MS_PER_MINUTE: i64 = 60_000;

/// Milliseconds in one second.
pub const MS_PER_SECOND: i64 = 1_000;

/// Instant of `0h` UT on the day with Julian Day number `jdn`, in
/// milliseconds (the astronomical day starts half a day earlier).
pub open spec fn spec_jdn_start_ms(jdn: int) -> int {
    jdn * 86_400_000 - 43_200_000
}

/// Instant of `0h` UT on the day with Julian Day number `jdn`.
pub fn jdn_start_ms(jdn: i64) -> (r: i64)
    requires
        0 <= jdn <= 100_000_000,
    ensures
        r == spec_jdn_start_ms(jdn as int),
{
    jdn * MS_PER_DAY - 43_200_000
}

/// Normalize a clock time into `[0, 24h)`, keeping its residue modulo
/// one day (the final step of the sunset solver).
pub fn normalize_clock_ms(ms: i64) -> (r: i64)
    requires
        -864_000_000_000_000 <= ms <= 864_000_000_000_000,
    ensures
        0 <= r < MS_PER_DAY,
        r == ms as int % 86_400_000,
{
    let rem: i64 = ms % MS_PER_DAY;
    if rem < 0 {
        rem + MS_PER_DAY
    } else {
        rem
    }
}

/// The `HH:MM` clock display, with the rounded seconds only carried into
/// the minute field (`"Invalid"` outside one day).
pub open spec fn spec_format_time(ms: int) -> Seq<char> {
    if ms < 0 || ms >= 86_400_000 {
        "Invalid"@
    } else {
        let h: int = ms / 3_600_000;
        let rem: int = ms % 3_600_000;
        let m: int = rem / 60_000;
        let s: int = (rem % 60_000 + 500) / 1_000;
        if s == 60 {
            if m + 1 == 60 {
                spec_pad2((h + 1) % 24) + ":"@ + spec_pad2(0)
            } else {
                spec_pad2(h) + ":"@ + spec_pad2(m + 1)
            }
        } else {
            spec_pad2(h) + ":"@ + spec_pad2(m)
        }
    }
}

/// Format a clock time (milliseconds since local midnight) as `HH:MM`,
/// rounding to the nearest minute through the seconds field.
pub fn format_time(ms: i64) -> (r: String)
    ensures
        r@ == spec_format_time(ms as int),
{
    if ms < 0 || ms >= MS_PER_DAY {
        return String::from_str("Invalid");
    }
    let h: i64 = ms / MS_PER_HOUR;
    let rem: i64 = ms % MS_PER_HOUR;
    let m: i64 = rem / MS_PER_MINUTE;
    let s: i64 = (rem % MS_PER_MINUTE + 500) / MS_PER_SECOND;
    let (hh, mm): (i64, i64) = if s == 60 {
        if m + 1 == 60 {
            ((h + 1) % 24, 0)
        } else {
            (h, m + 1)
        }
    } else {
        (h, m)
    };
    let mut out = pad2(hh as u64);
    out.append(":");
    out.append(pad2(mm as u64).as_str());
    proof {
        reveal_strlit(":");
        assert(out@ =~= spec_format_time(ms as int));
    }
    out
}

/// The `UTC+HH:MM` label for a timezone offset.
pub open spec fn spec_timezone_label(tz_ms: int) -> Seq<char> {
    let sign: Seq<char> = if tz_ms >= 0 {
        "+"@
    } else {
        "-"@
    };
    let a: int = if tz_ms >= 0 {
        tz_ms
    } else {
        -tz_ms
    };
    let h: int = a / 3_600_000;
    let m: int = (a % 3_600_000 + 30_000) / 60_000;
    "UTC"@ + sign + spec_pad2(h) + ":"@ + spec_pad2(m)
}

/// Format a timezone offset (milliseconds east of UTC) as `UTC+HH:MM`,
/// rounding the minute field.
pub fn format_timezone_label(tz_ms: i64) -> (r: String)
    requires
        tz_ms > i64::MIN,
    ensures
        r@ == spec_timezone_label(tz_ms as int),
{
    let mut out = String::from_str("UTC");
    if tz_ms >= 0 {
        out.append("+");
    } else {
        out.append("-");
    }
    let a: i64 = if tz_ms >= 0 {
        tz_ms
    } else {
        -tz_ms
    };
    let h: i64 = a / MS_PER_HOUR;
    let m: i64 = (a % MS_PER_HOUR + 30_000) / MS_PER_MINUTE;
    out.append(pad2(h as u64).as_str());
    out.append(":");
    out.append(pad2(m as u64).as_str());
    proof {
        reveal_strlit("UTC");
        reveal_strlit("+");
        reveal_strlit("-");
        reveal_strlit(":");
        assert(out@ =~= spec_timezone_label(tz_ms as int));
    }
    out
}

/// The signed `+HHh MMm SSs` display of the moonset-minus-sunset lag.
pub open spec fn spec_lag_time(sunset_ms: int, moonset_ms: int) -> Seq<char> {
    let diff: int = moonset_ms - sunset_ms;
    let sign: Seq<char> = if diff < 0 {
        "-"@
    } else {
        "+"@
    };
    let a: int = if diff < 0 {
        -diff
    } else {
        diff
    };
    let h: int = a / 3_600_000;
    let m: int = (a % 3_600_000) / 60_000;
    let s: int = (a % 60_000 + 500) / 1_000;
    sign + spec_digits(h) + "h "@ + spec_pad2(m) + "m "@ + spec_pad2(s) + "s"@
}

/// Format the lag between sunset and moonset (both clock milliseconds) as
/// a signed `h/m/s` string, seconds rounded.
pub fn calculate_lag_time(sunset_ms: i64, moonset_ms: i64) -> (r: String)
    requires
        -86_400_000 <= sunset_ms <= 86_400_000,
        -86_400_000 <= moonset_ms <= 86_400_000,
    ensures
        r@ == spec_lag_time(sunset_ms as int, moonset_ms as int),
{
    let diff: i64 = moonset_ms - sunset_ms;
    let mut out = if diff < 0 {
        String::from_str("-")
    } else {
        String::from_str("+")
    };
    let a: i64 = if diff < 0 {
        -diff
    } else {
        diff
    };
    let h: i64 = a / MS_PER_HOUR;
    let m: i64 = (a % MS_PER_HOUR) / MS_PER_MINUTE;
    let s: i64 = (a % MS_PER_MINUTE + 500) / MS_PER_SECOND;
    out.append(u64_to_string(h as u64).as_str());
    out.append("h ");
    out.append(pad2(m as u64).as_str());
    out.append("m ");
    out.append(pad2(s as u64).as_str());
    out.append("s");
    proof {
        reveal_strlit("-");
        reveal_strlit("+");
        reveal_strlit("h ");
        reveal_strlit("m ");
        reveal_strlit("s");
        assert(out@ =~= spec_lag_time(sunset_ms as int, moonset_ms as int));
    }
    out
}

/// `HH:MM:SS` of the fraction of the astronomical day of `local_ms`
/// (an instant already shifted to local time).
pub open spec fn spec_day_fraction_hms(local_ms: int) -> Seq<char> {
    let frac: int = local_ms % 86_400_000;
    let h: int = frac / 3_600_000;
    let m: int = (frac % 3_600_000) / 60_000;
    let s: int = (frac % 60_000 + 500) / 1_000;
    spec_pad2(h) + ":"@ + spec_pad2(m) + ":"@ + spec_pad2(s)
}

/// Format an instant as a local `HH:MM:SS UTC+HH:MM` display, measuring
/// the time from the start of the astronomical day as the classical
/// day-fraction formula does.
#[verifier::rlimit(50)]
pub fn format_jd_to_local_time(jd_ms: i64, tz_ms: i64) -> (r: String)
    requires
        0 <= jd_ms <= 864_000_000_000_000,
        -86_400_000 <= tz_ms <= 86_400_000,
    ensures
        r@ == spec_day_fraction_hms(jd_ms + tz_ms) + " "@ + spec_timezone_label(tz_ms as int),
{
    let local: i64 = jd_ms + tz_ms;
    let frac: i64 = ((local % MS_PER_DAY) + MS_PER_DAY) % MS_PER_DAY;
    proof {
        assert(frac == (local as int) % 86_400_000);
    }
    let h: i64 = frac / MS_PER_HOUR;
    let m: i64 = (frac % MS_PER_HOUR) / MS_PER_MINUTE;
    let s: i64 = (frac % MS_PER_MINUTE + 500) / MS_PER_SECOND;
    let mut out = pad2(h as u64);
    out.append(":");
    out.append(pad2(m as u64).as_str());
    out.append(":");
    out.append(pad2(s as u64).as_str());
    out.append(" ");
    out.append(format_timezone_label(tz_ms).as_str());
    proof {
        reveal_strlit(":");
        reveal_strlit(" ");
        assert(out@ =~= spec_day_fraction_hms(jd_ms + tz_ms) + " "@ + spec_timezone_label(
            tz_ms as int,
        ));
    }
    out
}

/// The English weekday name of an instant, from the residue of the Julian
/// Day shifted to the civil day boundary.
pub open spec fn spec_weekday_name(jd_ms: int) -> Seq<char> {
    let dow: int = ((jd_ms + 129_600_000) / 86_400_000) % 7;
    if dow == 0 {
        "Sunday"@
    } else if dow == 1 {
        "Monday"@
    } else if dow == 2 {
        "Tuesday"@
    } else if dow == 3 {
        "Wednesday"@
    } else if dow == 4 {
        "Thursday"@
    } else if dow == 5 {
        "Friday"@
    } else {
        "Saturday"@
    }
}

/// English weekday name of an instant.
pub fn weekday_name(jd_ms: i64) -> (r: &'static str)
    requires
        0 <= jd_ms <= 864_000_000_000_000,
    ensures
        r@ == spec_weekday_name(jd_ms as int),
{
    let dow: i64 = ((jd_ms + 129_600_000) / MS_PER_DAY) % 7;
    if dow == 0 {
        "Sunday"
    } else if dow == 1 {
        "Monday"
    } else if dow == 2 {
        "Tuesday"
    } else if dow == 3 {
        "Wednesday"
    } else if dow == 4 {
        "Thursday"
    } else if dow == 5 {
        "Friday"
    } else {
        "Saturday"
    }
}

/// Format an instant as `Weekday : HH:MM:SS UTC+HH:MM`, the weekday taken
/// from the universal-time day and the clock from the civil local day.
#[verifier::rlimit(50)]
pub fn format_jd_to_datetime(jd_ms: i64, tz_ms: i64) -> (r: String)
    requires
        0 <= jd_ms <= 864_000_000_000_000,
        -86_400_000 <= tz_ms <= 86_400_000,
    ensures
        r@ == spec_weekday_name(jd_ms as int) + " : "@ + spec_day_fraction_hms(
            jd_ms + tz_ms + 43_200_000,
        ) + " "@ + spec_timezone_label(tz_ms as int),
{
    let civil: i64 = jd_ms + tz_ms + 43_200_000;
    let frac: i64 = ((civil % MS_PER_DAY) + MS_PER_DAY) % MS_PER_DAY;
    proof {
        assert(frac == (civil as int) % 86_400_000);
    }
    let h: i64 = frac / MS_PER_HOUR;
    let m: i64 = (frac % MS_PER_HOUR) / MS_PER_MINUTE;
    let s: i64 = (frac % MS_PER_MINUTE + 500) / MS_PER_SECOND;
    let mut out = String::from_str(weekday_name(jd_ms));
    out.append(" : ");
    out.append(pad2(h as u64).as_str());
    out.append(":");
    out.append(pad2(m as u64).as_str());
    out.append(":");
    out.append(pad2(s as u64).as_str());
    out.append(" ");
    out.append(format_timezone_label(tz_ms).as_str());
    proof {
        reveal_strlit(" : ");
        reveal_strlit(":");
        reveal_strlit(" ");
        assert(out@ =~= spec_weekday_name(jd_ms as int) + " : "@ + spec_day_fraction_hms(
            jd_ms + tz_ms + 43_200_000,
        ) + " "@ + spec_timezone_label(tz_ms as int));
    }
    out
}

} // verus!
