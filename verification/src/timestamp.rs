//! Verified rendering of a Unix timestamp as `YYYY-MM-DD HH:MM:SS` (UTC).
//!
//! The Gregorian calendar arithmetic is carried out here and proved against
//! its specification; the clock itself is the one outside input.

use vstd::prelude::*;
use crate::textutil::spec_dec_pad;
use crate::textutil::u64_to_dec_pad;

verus! {

/// The last second this module renders: 9999-12-31 23:59:59 UTC.
pub const MAX_FORMAT_SECONDS: u64 = 253402300799;

/// Gregorian leap year rule.
pub open spec fn spec_is_leap_year(y: int) -> bool {
    y % 4 == 0 && (y % 100 != 0 || y % 400 == 0)
}

/// Days in year `y`.
pub open spec fn spec_year_len(y: int) -> int {
    if spec_is_leap_year(y) {
        366
    } else {
        365
    }
}

/// Days in month `m` (1-based) of a year with leap flag `leap`.
pub open spec fn spec_month_len(m: int, leap: bool) -> int {
    if m == 2 {
        if leap {
            29
        } else {
            28
        }
    } else if m == 4 || m == 6 || m == 9 || m == 11 {
        30
    } else {
        31
    }
}

/// Peel whole years off a day count, starting at year `y`: the result is the
/// year the count lands in and the zero-based day within it.
pub open spec fn spec_year_of(days: int, y: int) -> (int, int)
    decreases days,
{
    if days < spec_year_len(y) || days < 0 {
        (y, days)
    } else {
        spec_year_of(days - spec_year_len(y), y + 1)
    }
}

/// Peel whole months off a zero-based day of year: the result is the month
/// (1-based) and the zero-based day within it.
pub open spec fn spec_month_of(doy: int, m: int, leap: bool) -> (int, int)
    decreases 12 - m,
{
    if m >= 12 || doy < spec_month_len(m, leap) {
        (m, doy)
    } else {
        spec_month_of(doy - spec_month_len(m, leap), m + 1, leap)
    }
}

/// The calendar date of a seconds-since-epoch instant: (year, month, day).
pub open spec fn spec_date_of(secs: u64) -> (int, int, int) {
    let yd = spec_year_of(secs as int / 86400, 1970);
    let md = spec_month_of(yd.1, 1, spec_is_leap_year(yd.0));
    (yd.0, md.0, md.1 + 1)
}

/// The rendered `YYYY-MM-DD HH:MM:SS` text of a seconds-since-epoch instant.
pub open spec fn spec_timestamp_text(secs: u64) -> Seq<char> {
    let date = spec_date_of(secs);
    let sod = secs as int % 86400;
    spec_dec_pad(date.0 as u64, 4) + "-"@ + spec_dec_pad(date.1 as u64, 2) + "-"@ + spec_dec_pad(
        date.2 as u64,
        2,
    ) + " "@ + spec_dec_pad((sod / 3600) as u64, 2) + ":"@ + spec_dec_pad(
        (sod % 3600 / 60) as u64,
        2,
    ) + ":"@ + spec_dec_pad((sod % 60) as u64, 2)
}

/// Days in year `y`.
fn year_len(y: u64) -> (r: u64)
    ensures
        r as int == spec_year_len(y as int),
{
    if y % 4 == 0 && (y % 100 != 0 || y % 400 == 0) {
        366
    } else {
        365
    }
}

/// Days in month `m` of a year with leap flag `leap`.
fn month_len(m: u64, leap: bool) -> (r: u64)
    ensures
        r as int == spec_month_len(m as int, leap),
{
    if m == 2 {
        if leap {
            29
        } else {
            28
        }
    } else if m == 4 || m == 6 || m == 9 || m == 11 {
        30
    } else {
        31
    }
}

/// Render a seconds-since-epoch instant as `YYYY-MM-DD HH:MM:SS` in UTC.
pub fn format_timestamp(secs: u64) -> (r: String)
    requires
        secs <= MAX_FORMAT_SECONDS,
    ensures
        r@ == spec_timestamp_text(secs),
{
    let days: u64 = secs / 86400;
    let sod: u64 = secs % 86400;
    let mut y: u64 = 1970;
    let mut rem: u64 = days;
    while rem >= year_len(y)
        invariant
            days <= 2932896,
            rem <= days,
            y >= 1970,
            y as int - 1970 <= days as int - rem as int,
            spec_year_of(days as int, 1970) == spec_year_of(rem as int, y as int),
        decreases rem,
    {
        let len = year_len(y);
        proof {
            assert(spec_year_of(rem as int, y as int) == spec_year_of(
                rem as int - spec_year_len(y as int),
                y as int + 1,
            ));
        }
        rem = rem - len;
        y = y + 1;
    }
    proof {
        assert(spec_year_of(rem as int, y as int) == (y as int, rem as int));
    }
    let ghost doy0: int = rem as int;
    let leap = year_len(y) == 366;
    let mut m: u64 = 1;
    while m < 12 && rem >= month_len(m, leap)
        invariant
            rem <= 365,
            1 <= m <= 12,
            leap == spec_is_leap_year(y as int),
            spec_year_of(days as int, 1970) == (y as int, doy0),
            spec_month_of(doy0, 1, leap) == spec_month_of(rem as int, m as int, leap),
        decreases 12 - m,
    {
        let len = month_len(m, leap);
        proof {
            assert(spec_month_of(rem as int, m as int, leap) == spec_month_of(
                rem as int - spec_month_len(m as int, leap),
                m as int + 1,
                leap,
            ));
        }
        rem = rem - len;
        m = m + 1;
    }
    proof {
        assert(spec_month_of(rem as int, m as int, leap) == (m as int, rem as int));
        assert(spec_date_of(secs) == (y as int, m as int, rem as int + 1));
    }
    let day: u64 = rem + 1;
    let hour: u64 = sod / 3600;
    let minute: u64 = sod % 3600 / 60;
    let second: u64 = sod % 60;
    let mut out = u64_to_dec_pad(y, 4);
    out.append("-");
    let t = u64_to_dec_pad(m, 2);
    out.append(t.as_str());
    out.append("-");
    let t = u64_to_dec_pad(day, 2);
    out.append(t.as_str());
    out.append(" ");
    let t = u64_to_dec_pad(hour, 2);
    out.append(t.as_str());
    out.append(":");
    let t = u64_to_dec_pad(minute, 2);
    out.append(t.as_str());
    out.append(":");
    let t = u64_to_dec_pad(second, 2);
    out.append(t.as_str());
    proof {
        assert(out@ =~= spec_timestamp_text(secs));
    }
    out
}

/// The current wall-clock time rendered as `YYYY-MM-DD HH:MM:SS` (UTC).
///
/// The clock is read through the trusted [`crate::outside::now_unix_seconds`]
/// and clamped into the renderable range, so the result is always a
/// well-formed timestamp text for some in-range instant.
pub fn current_timestamp() -> (r: String)
    ensures
        exists|t: u64| t <= MAX_FORMAT_SECONDS && r@ == spec_timestamp_text(t),
{
    let now = crate::outside::now_unix_seconds();
    let clamped: u64 = if now < 0 {
        0
    } else if now > MAX_FORMAT_SECONDS as i64 {
        MAX_FORMAT_SECONDS
    } else {
        now as u64
    };
    let r = format_timestamp(clamped);
    proof {
        assert(clamped <= MAX_FORMAT_SECONDS && r@ == spec_timestamp_text(clamped));
    }
    r
}

} // verus!
