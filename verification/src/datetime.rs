//! Proleptic Gregorian calendar arithmetic on day counts relative to the Unix
//! epoch (1970-01-01), and the ISO 8601 timestamp built from it.
use vstd::prelude::*;

use crate::text::{padded_decimal, push_padded_decimal};

verus! {

/// Gregorian leap-year rule.
pub open spec fn is_leap_year(y: int) -> bool {
    (y % 4 == 0 && y % 100 != 0) || y % 400 == 0
}

/// Length of month `m` (1..=12) of year `y`.
pub open spec fn days_in_month(y: int, m: int) -> int {
    if m == 2 {
        if is_leap_year(y) { 29 } else { 28 }
    } else if m == 4 || m == 6 || m == 9 || m == 11 {
        30
    } else {
        31
    }
}

/// Days in the months of a common year that precede month `m`.
pub open spec fn common_days_before_month(m: int) -> int {
    if m <= 1 { 0 }
    else if m == 2 { 31 }
    else if m == 3 { 59 }
    else if m == 4 { 90 }
    else if m == 5 { 120 }
    else if m == 6 { 151 }
    else if m == 7 { 181 }
    else if m == 8 { 212 }
    else if m == 9 { 243 }
    else if m == 10 { 273 }
    else if m == 11 { 304 }
    else { 334 }
}

/// Days of year `y` that precede the first of month `m`.
pub open spec fn days_before_month(y: int, m: int) -> int {
    common_days_before_month(m) + if m > 2 && is_leap_year(y) { 1int } else { 0int }
}

/// Number of leap years among the years `1..=n` (negative for `n < 0`, so that
/// differences count leap years in any half-open range of years).
pub open spec fn leap_years_through(n: int) -> int {
    n / 4 - n / 100 + n / 400
}

/// Days from 1970-01-01 to January 1st of year `y` (negative before 1970).
pub open spec fn days_before_year(y: int) -> int {
    365 * (y - 1970) + leap_years_through(y - 1) - leap_years_through(1969)
}

/// Days from 1970-01-01 to the date `y-m-d` (negative before the epoch).
pub open spec fn days_from_civil(y: int, m: int, d: int) -> int {
    days_before_year(y) + days_before_month(y, m) + d - 1
}

/// `y-m-d` names a real day of the proleptic Gregorian calendar.
pub open spec fn is_valid_date(y: int, m: int, d: int) -> bool {
    1 <= m <= 12 && 1 <= d <= days_in_month(y, m)
}

/// Days from 0000-03-01 to March 1st of year `k`.
spec fn days_to_march(k: int) -> int {
    365 * k + leap_years_through(k)
}

/// The March-based year within a 400-year era that holds day `doe` of the era,
/// as the conversion computes it.
spec fn year_of_era(doe: int) -> int {
    (doe - doe / 1460 + doe / 36524 - doe / 146096) / 365
}

proof fn lemma_year_of_era(doe: int)
    requires
        0 <= doe <= 146096,
    ensures
        0 <= year_of_era(doe) <= 399,
        days_to_march(year_of_era(doe)) <= doe < days_to_march(year_of_era(doe) + 1),
        days_to_march(year_of_era(doe)) == 365 * year_of_era(doe) + year_of_era(doe) / 4
            - year_of_era(doe) / 100,
{
}

proof fn lemma_leap_step(n: int)
    ensures
        leap_years_through(n) - leap_years_through(n - 1) == if is_leap_year(n) { 1int } else { 0int },
{
}

proof fn lemma_era_shift(era: int, k: int)
    ensures
        days_to_march(400 * era + k) == 146097 * era + days_to_march(k),
        is_leap_year(400 * era + k) == is_leap_year(k),
{
}

/// The closed form of [`days_before_year`] advances by the length of each year:
/// 366 days after a leap year, 365 after a common one.
pub proof fn lemma_days_before_year_step(y: int)
    ensures
        days_before_year(y + 1) == days_before_year(y) + if is_leap_year(y) { 366int } else { 365int },
{
    lemma_leap_step(y);
}

/// Consecutive days of a month, and the turn of a month, are one day apart:
/// the day after the last day of `y-m` is the first of the next month.
pub proof fn lemma_days_from_civil_month_end(y: int, m: int)
    requires
        1 <= m <= 12,
    ensures
        m < 12 ==> days_from_civil(y, m, days_in_month(y, m)) + 1 == days_from_civil(y, m + 1, 1),
        m == 12 ==> days_from_civil(y, 12, 31) + 1 == days_from_civil(y + 1, 1, 1),
{
    lemma_days_before_year_step(y);
}

/// Two valid dates with the same day count are the same date.
pub proof fn lemma_days_from_civil_injective(y1: int, m1: int, d1: int, y2: int, m2: int, d2: int)
    requires
        is_valid_date(y1, m1, d1),
        is_valid_date(y2, m2, d2),
        days_from_civil(y1, m1, d1) == days_from_civil(y2, m2, d2),
    ensures
        y1 == y2 && m1 == m2 && d1 == d2,
{
    lemma_year_bounds(y1, m1, d1);
    lemma_year_bounds(y2, m2, d2);
    if y1 < y2 {
        lemma_days_before_year_monotonic(y1 + 1, y2);
    } else if y2 < y1 {
        lemma_days_before_year_monotonic(y2 + 1, y1);
    }
}

/// Every valid date of year `y` lies in `[days_before_year(y), days_before_year(y + 1))`.
proof fn lemma_year_bounds(y: int, m: int, d: int)
    requires
        is_valid_date(y, m, d),
    ensures
        days_before_year(y) <= days_from_civil(y, m, d) < days_before_year(y + 1),
{
    lemma_days_before_year_step(y);
}

proof fn lemma_days_before_year_monotonic(a: int, b: int)
    requires
        a <= b,
    ensures
        days_before_year(a) <= days_before_year(b),
    decreases b - a,
{
    if a < b {
        lemma_days_before_year_monotonic(a, b - 1);
        lemma_days_before_year_step(b - 1);
    }
}

/// Month and day of the day `doy` (0-based) of a March-based year whose
/// February has 29 days exactly when `leap` holds.
proof fn lemma_month_of_march_year(doy: int, leap: bool)
    requires
        0 <= doy < 365 + if leap { 1int } else { 0int },
    ensures
        0 <= (5 * doy + 2) / 153 <= 11,
        ({
            let mp = (5 * doy + 2) / 153;
            let d = doy - (153 * mp + 2) / 5 + 1;
            &&& 1 <= d
            &&& mp < 11 ==> d <= if mp == 1 || mp == 3 || mp == 6 || mp == 8 { 30int } else { 31int }
            &&& mp == 11 ==> d <= if leap { 29int } else { 28int }
            &&& mp < 10 ==> (153 * mp + 2) / 5 == common_days_before_month(mp + 3) - 59
            &&& mp >= 10 ==> (153 * mp + 2) / 5 == common_days_before_month(mp - 9) + 306
        }),
{
}

/// The conversion's arithmetic, stated over mathematical integers.
proof fn lemma_civil_from_days(z: int, era: int)
    requires
        era == z / 146097,
    ensures
        ({
            let doe = z - era * 146097;
            let yoe = year_of_era(doe);
            let doy = doe - (365 * yoe + yoe / 4 - yoe / 100);
            let mp = (5 * doy + 2) / 153;
            let d = doy - (153 * mp + 2) / 5 + 1;
            let m = if mp < 10 { mp + 3 } else { mp - 9 };
            let y = if m <= 2 { yoe + era * 400 + 1 } else { yoe + era * 400 };
            &&& 0 <= doe <= 146096
            &&& 0 <= yoe <= 399
            &&& 0 <= doy <= 365
            &&& 0 <= mp <= 11
            &&& is_valid_date(y, m, d)
            &&& days_from_civil(y, m, d) == z - 719468
        }),
{
    let doe = z - era * 146097;
    lemma_year_of_era(doe);
    let yoe = year_of_era(doe);
    let y0 = 400 * era + yoe;
    lemma_era_shift(era, yoe);
    lemma_era_shift(era, yoe + 1);
    lemma_leap_step(y0);
    lemma_leap_step(y0 + 1);
    lemma_days_before_year_step(y0);
    let doy = doe - (365 * yoe + yoe / 4 - yoe / 100);
    assert(days_to_march(yoe + 1) - days_to_march(yoe) == 365 + if is_leap_year(yoe + 1) { 1int } else { 0int });
    lemma_month_of_march_year(doy, is_leap_year(y0 + 1));
    assert(days_to_march(y0) == z - doy);
    assert(days_before_year(y0) + 59 + (if is_leap_year(y0) { 1int } else { 0int }) == days_to_march(y0) - 719468);
}

/// Converts a day count relative to 1970-01-01 into the civil date
/// `(year, month, day)` of the proleptic Gregorian calendar.
pub fn days_to_ymd(days: i64) -> (ymd: (i64, i64, i64))
    requires
        days <= i64::MAX - 719468,
        days >= i64::MIN + 146096 - 719468,
    ensures
        is_valid_date(ymd.0 as int, ymd.1 as int, ymd.2 as int),
        days_from_civil(ymd.0 as int, ymd.1 as int, ymd.2 as int) == days as int,
{
    let days = days + 719468;
    let era = if days >= 0 { days } else { days - 146096 } / 146097;
    proof {
        lemma_civil_from_days(days as int, era as int);
    }
    let doe = days - era * 146097;
    let yoe = (doe - doe / 1460 + doe / 36524 - doe / 146096) / 365;
    let y = yoe + era * 400;
    let doy = doe - (365 * yoe + yoe / 4 - yoe / 100);
    let mp = (5 * doy + 2) / 153;
    let d = doy - (153 * mp + 2) / 5 + 1;
    let m = if mp < 10 { mp + 3 } else { mp - 9 };
    let y = if m <= 2 { y + 1 } else { y };
    (y, m, d)
}

/// The civil date `(year, month, day)` that lies `days` days after 1970-01-01.
pub open spec fn civil_date(days: int) -> (int, int, int) {
    choose|ymd: (int, int, int)|
        is_valid_date(ymd.0, ymd.1, ymd.2) && days_from_civil(ymd.0, ymd.1, ymd.2) == days
}

/// `YYYY-MM-DDTHH:MM:SS`, each field zero-padded (the year to at least four digits).
pub open spec fn iso8601_text(y: nat, mo: nat, d: nat, h: nat, mi: nat, s: nat) -> Seq<char> {
    padded_decimal(y, 4) + seq!['-'] + padded_decimal(mo, 2) + seq!['-'] + padded_decimal(d, 2)
        + seq!['T'] + padded_decimal(h, 2) + seq![':'] + padded_decimal(mi, 2) + seq![':']
        + padded_decimal(s, 2)
}

/// The UTC timestamp of `secs` seconds after the Unix epoch.
pub open spec fn iso8601_of_unix_secs(secs: nat) -> Seq<char> {
    let ymd = civil_date((secs / 86400) as int);
    let t = secs % 86400;
    iso8601_text(ymd.0 as nat, ymd.1 as nat, ymd.2 as nat, t / 3600, (t % 3600) / 60, t % 60)
}

/// A valid date on or after the epoch lies in a year no earlier than 1970.
proof fn lemma_year_not_before_epoch(y: int, m: int, d: int)
    requires
        is_valid_date(y, m, d),
        days_from_civil(y, m, d) >= 0,
    ensures
        y >= 1970,
{
    lemma_year_bounds(y, m, d);
    if y < 1970 {
        lemma_days_before_year_monotonic(y + 1, 1970);
    }
}

/// Renders `secs` seconds after the Unix epoch as a UTC ISO 8601 timestamp
/// (`YYYY-MM-DDTHH:MM:SS`).
pub fn format_iso8601(secs: u64) -> (s: String)
    ensures
        s@ == iso8601_of_unix_secs(secs as nat),
{
    let days = secs / 86400;
    let time_of_day = secs % 86400;
    let h = time_of_day / 3600;
    let m = (time_of_day % 3600) / 60;
    let sec = time_of_day % 60;
    let (y, mo, d) = days_to_ymd(days as i64);
    proof {
        lemma_year_not_before_epoch(y as int, mo as int, d as int);
        let w = (y as int, mo as int, d as int);
        assert(is_valid_date(w.0, w.1, w.2) && days_from_civil(w.0, w.1, w.2) == days as int);
        let c = civil_date(days as int);
        lemma_days_from_civil_injective(c.0, c.1, c.2, w.0, w.1, w.2);
    }
    let mut out = String::new();
    push_padded_decimal(&mut out, y as u64, 4);
    out.push('-');
    push_padded_decimal(&mut out, mo as u64, 2);
    out.push('-');
    push_padded_decimal(&mut out, d as u64, 2);
    out.push('T');
    push_padded_decimal(&mut out, h, 2);
    out.push(':');
    push_padded_decimal(&mut out, m, 2);
    out.push(':');
    push_padded_decimal(&mut out, sec, 2);
    proof {
        assert(out@ =~= iso8601_of_unix_secs(secs as nat));
    }
    out
}

/// Reads the system clock (`SystemTime::now`, seconds since the Unix epoch,
/// zero if the clock reads before it); nothing is claimed of the value.
#[verifier::external_body]
fn unix_time_secs() -> u64 {
    std::time::SystemTime::now().duration_since(std::time::UNIX_EPOCH).unwrap_or_default().as_secs()
}

/// The current UTC time as an ISO 8601 string (`YYYY-MM-DDTHH:MM:SS`).
pub fn now_iso8601() -> (s: String)
    ensures
        exists|secs: u64| s@ == iso8601_of_unix_secs(secs as nat),
{
    let secs = unix_time_secs();
    format_iso8601(secs)
}

} // verus!
