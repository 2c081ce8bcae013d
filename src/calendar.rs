//! Civil (proleptic Gregorian, UTC) dates and timestamps from seconds since the epoch.

use vstd::prelude::*;
use crate::number::{padded_decimal, padded_decimal_of};

verus! {

pub open spec fn leap_year(y: int) -> bool {
    y % 4 == 0 && (y % 100 != 0 || y % 400 == 0)
}

pub open spec fn year_length(y: int) -> nat {
    if leap_year(y) {
        366
    } else {
        365
    }
}

/// Days from 1970-01-01 to January 1st of year `y` (for `y >= 1970`).
pub open spec fn days_before_year(y: int) -> nat
    decreases y - 1970,
{
    if y <= 1970 {
        0
    } else {
        days_before_year(y - 1) + year_length(y - 1)
    }
}

/// Length of month `m` (1 to 12) of year `y`.
pub open spec fn month_length(y: int, m: int) -> nat {
    if m == 2 {
        if leap_year(y) {
            29
        } else {
            28
        }
    } else if m == 4 || m == 6 || m == 9 || m == 11 {
        30
    } else {
        31
    }
}

/// Days from January 1st to the first day of month `m` in year `y`.
pub open spec fn days_before_month(y: int, m: int) -> nat
    decreases m,
{
    if m <= 1 {
        0
    } else {
        days_before_month(y, m - 1) + month_length(y, m - 1)
    }
}

/// Is (y, m, d) the date `days` days after 1970-01-01?
pub open spec fn is_civil_date(days: int, y: int, m: int, d: int) -> bool {
    &&& y >= 1970
    &&& 1 <= m <= 12
    &&& 1 <= d <= month_length(y, m)
    &&& days == days_before_year(y) + days_before_month(y, m) + d - 1
}

proof fn lemma_months_fill_year(y: int)
    ensures
        days_before_month(y, 13) == year_length(y),
{
    reveal_with_fuel(days_before_month, 13);
}

pub fn is_leap(y: u64) -> (r: bool)
    ensures
        r == leap_year(y as int),
{
    y % 4 == 0 && (y % 100 != 0 || y % 400 == 0)
}

fn month_len(leap: bool, m: u64) -> (r: u64)
    requires
        1 <= m <= 12,
    ensures
        leap ==> r == month_length(2000, m as int),
        !leap ==> r == month_length(1970, m as int),
{
    if m == 2 {
        if leap {
            29
        } else {
            28
        }
    } else if m == 4 || m == 6 || m == 9 || m == 11 {
        30
    } else {
        31
    }
}

/// The date `days` days after 1970-01-01, as (year, month, day).
pub fn days_to_ymd(days: u64) -> (r: (u64, u64, u64))
    ensures
        is_civil_date(days as int, r.0 as int, r.1 as int, r.2 as int),
{
    let mut rest: u64 = days;
    let mut year: u64 = 1970;
    loop
        invariant
            1970 <= year,
            (year - 1970) * 365 <= days - rest,
            rest <= days,
            days == days_before_year(year as int) + rest,
        ensures
            1970 <= year,
            days == days_before_year(year as int) + rest,
            rest < year_length(year as int),
        decreases rest,
    {
        let days_in_year: u64 = if is_leap(year) {
            366
        } else {
            365
        };
        if rest < days_in_year {
            break;
        }
        rest = rest - days_in_year;
        year = year + 1;
    }
    let leap = is_leap(year);
    proof {
        lemma_months_fill_year(year as int);
    }
    let mut month: u64 = 1;
    while month < 12 && rest >= month_len(leap, month)
        invariant
            1 <= month <= 12,
            leap == leap_year(year as int),
            days == days_before_year(year as int) + days_before_month(year as int, month as int)
                + rest,
            days_before_month(year as int, month as int) + rest < year_length(year as int),
        decreases 12 - month,
    {
        assert(month_length(year as int, month as int) == if leap {
            month_length(2000, month as int)
        } else {
            month_length(1970, month as int)
        });
        rest = rest - month_len(leap, month);
        month = month + 1;
    }
    proof {
        if month == 12 {
            assert(days_before_month(year as int, 13) == days_before_month(year as int, 12)
                + month_length(year as int, 12));
        }
        assert(month_length(year as int, month as int) == if leap {
            month_length(2000, month as int)
        } else {
            month_length(1970, month as int)
        });
    }
    (year, month, rest + 1)
}

/// `secs` since the epoch as `YYYY-MM-DDTHH:MM:SSZ`.
pub open spec fn timestamp_text(secs: u64, y: nat, mo: nat, d: nat) -> Seq<char> {
    let rem = secs % 86400;
    padded_decimal_of(y, 4) + "-"@ + padded_decimal_of(mo, 2) + "-"@ + padded_decimal_of(d, 2) + "T"@
        + padded_decimal_of((rem / 3600) as nat, 2) + ":"@ + padded_decimal_of(
        ((rem % 3600) / 60) as nat,
        2,
    ) + ":"@ + padded_decimal_of((rem % 60) as nat, 2) + "Z"@
}

/// An ISO-8601 UTC timestamp for `secs` seconds since the epoch.
pub fn format_timestamp(secs: u64) -> (r: String)
    ensures
        exists|y: u64, mo: u64, d: u64|
            is_civil_date((secs / 86400) as int, y as int, mo as int, d as int) && r@
                == #[trigger] timestamp_text(secs, y as nat, mo as nat, d as nat),
{
    let days = secs / 86400;
    let rem = secs % 86400;
    let (y, mo, d) = days_to_ymd(days);
    let mut out = padded_decimal(y, 4);
    out.append("-");
    out.append(padded_decimal(mo, 2).as_str());
    out.append("-");
    out.append(padded_decimal(d, 2).as_str());
    out.append("T");
    out.append(padded_decimal(rem / 3600, 2).as_str());
    out.append(":");
    out.append(padded_decimal((rem % 3600) / 60, 2).as_str());
    out.append(":");
    out.append(padded_decimal(rem % 60, 2).as_str());
    out.append("Z");
    assert(out@ == timestamp_text(secs, y as nat, mo as nat, d as nat));
    out
}

} // verus!
