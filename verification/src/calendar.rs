//! Civil dates of the proleptic Gregorian calendar and the UTC timestamps
//! the startup marker and crash log carry.
use crate::text::{push_zero_padded, zero_padded};
use vstd::prelude::*;

verus! {

// ---------------------------------------------------------------------
// The calendar
// ---------------------------------------------------------------------

/// Gregorian leap years: every fourth year, except centuries not divisible
/// by 400.
pub open spec fn is_leap(y: int) -> bool {
    y % 4 == 0 && (y % 100 != 0 || y % 400 == 0)
}

pub open spec fn days_in_year(y: int) -> int {
    if is_leap(y) {
        366
    } else {
        365
    }
}

/// Length of month `m` (1 = January) of year `y`.
pub open spec fn days_in_month(y: int, m: int) -> int {
    if m == 2 {
        if is_leap(y) {
            29
        } else {
            28
        }
    } else if m == 4 || m == 6 || m == 9 || m == 11 {
        30
    } else {
        31
    }
}

/// Days of year `y` before the first of month `m`.
pub open spec fn days_before_month(y: int, m: int) -> int
    decreases m,
{
    if m <= 1 {
        0
    } else {
        days_before_month(y, m - 1) + days_in_month(y, m - 1)
    }
}

/// Days from 1970-01-01 to January 1st of year `1970 + n`.
pub open spec fn days_before_year(n: nat) -> int
    decreases n,
{
    if n == 0 {
        0
    } else {
        days_before_year((n - 1) as nat) + days_in_year(1970 + n as int - 1)
    }
}

/// A calendar date on or after the Unix epoch.
pub open spec fn valid_date(y: int, m: int, d: int) -> bool {
    &&& y >= 1970
    &&& 1 <= m <= 12
    &&& 1 <= d <= days_in_month(y, m)
}

/// Days from 1970-01-01 to `y-m-d`.
pub open spec fn days_since_epoch(y: int, m: int, d: int) -> int {
    days_before_year((y - 1970) as nat) + days_before_month(y, m) + d - 1
}

// ---------------------------------------------------------------------
// The March-based count the conversion computes with
// ---------------------------------------------------------------------

/// Days from 0000-03-01 to the March 1st that starts March-based year `y`.
pub open spec fn march_days(y: int) -> int {
    365 * y + y / 4 - y / 100 + y / 400
}

/// Days from the start of a March-based year to the start of its month
/// `mp` (0 = March, 11 = February).
pub open spec fn month_start(mp: int) -> int {
    (153 * mp + 2) / 5
}

/// Days from 0000-03-01 to `y-m-d`.
pub open spec fn march_count(y: int, m: int, d: int) -> int {
    if m <= 2 {
        march_days(y - 1) + month_start(m + 9) + d - 1
    } else {
        march_days(y) + month_start(m - 3) + d - 1
    }
}

/// Days from 0000-03-01 to 1970-01-01.
pub const EPOCH_MARCH_DAYS: u64 = 719_468;

proof fn lemma_march_year_length(y: int)
    ensures
        march_days(y + 1) - march_days(y) == days_in_year(y + 1),
{
}

proof fn lemma_march_era(era: int, yoe: int)
    requires
        0 <= yoe < 400,
    ensures
        march_days(400 * era + yoe) == 146097 * era + march_days(yoe),
{
}

/// The year of a day inside a 400-year era.
proof fn lemma_year_of_era(doe: int)
    requires
        0 <= doe <= 146096,
    ensures
        ({
            let yoe = (doe - doe / 1460 + doe / 36524 - doe / 146096) / 365;
            &&& 0 <= yoe <= 399
            &&& march_days(yoe) <= doe < march_days(yoe + 1)
        }),
{
}

/// The month of a day inside a March-based year.
proof fn lemma_month_of_year(doy: int)
    requires
        0 <= doy <= 365,
    ensures
        ({
            let mp = (5 * doy + 2) / 153;
            &&& 0 <= mp <= 11
            &&& month_start(mp) <= doy < month_start(mp + 1)
        }),
{
}

/// January 1st agrees between the two counts.
proof fn lemma_new_year(n: nat)
    ensures
        days_before_year(n) == march_count(1970 + n as int, 1, 1) - EPOCH_MARCH_DAYS,
    decreases n,
{
    if n > 0 {
        lemma_new_year((n - 1) as nat);
        lemma_march_year_length(1970 + n as int - 2);
    }
}

/// Both counts agree on every date from the epoch on.
proof fn lemma_counts_agree(y: int, m: int, d: int)
    requires
        y >= 1970,
        1 <= m <= 12,
    ensures
        days_since_epoch(y, m, d) == march_count(y, m, d) - EPOCH_MARCH_DAYS,
{
    lemma_new_year((y - 1970) as nat);
    lemma_march_year_length(y - 1);
    reveal_with_fuel(days_before_month, 12);
}

/// The date `z` days after 0000-03-01, decoded era by era, year by year
/// and month by month.
spec fn march_decode(z: int) -> (int, int, int) {
    let era = z / 146097;
    let doe = z - era * 146097;
    let yoe = (doe - doe / 1460 + doe / 36524 - doe / 146096) / 365;
    let y = yoe + era * 400;
    let doy = doe - (365 * yoe + yoe / 4 - yoe / 100);
    let mp = (5 * doy + 2) / 153;
    let d = doy - (153 * mp + 2) / 5 + 1;
    let m = if mp < 10 {
        mp + 3
    } else {
        mp - 9
    };
    (if m <= 2 {
        y + 1
    } else {
        y
    }, m, d)
}

#[verifier::rlimit(40)]
proof fn lemma_march_decode(z: int)
    requires
        z >= EPOCH_MARCH_DAYS,
    ensures
        ({
            let (y, m, d) = march_decode(z);
            &&& y >= 1970
            &&& 1 <= m <= 12
            &&& 1 <= d <= days_in_month(y, m)
            &&& march_count(y, m, d) == z
        }),
{
    let era = z / 146097;
    let doe = z - era * 146097;
    lemma_year_of_era(doe);
    let yoe = (doe - doe / 1460 + doe / 36524 - doe / 146096) / 365;
    let y = yoe + era * 400;
    let doy = doe - (365 * yoe + yoe / 4 - yoe / 100);
    lemma_march_year_length(yoe);
    lemma_month_of_year(doy);
    lemma_march_era(era, yoe);
    lemma_march_year_length(y);
}

/// The civil date of day number `days` counted from 1970-01-01 (the
/// civil-from-days conversion, done in whole March-based eras).
pub fn days_to_ymd(days: u64) -> (r: (i64, u32, u32))
    requires
        days <= u64::MAX - EPOCH_MARCH_DAYS,
    ensures
        valid_date(r.0 as int, r.1 as int, r.2 as int),
        days_since_epoch(r.0 as int, r.1 as int, r.2 as int) == days,
        (r.0 as int, r.1 as int, r.2 as int) == civil_of(days as int),
{
    let z: u64 = days + EPOCH_MARCH_DAYS;
    let era: u64 = z / 146_097;
    let doe: u64 = z - era * 146_097;
    let yoe: u64 = (doe - doe / 1460 + doe / 36_524 - doe / 146_096) / 365;
    let y: u64 = yoe + era * 400;
    let doy: u64 = doe - (365 * yoe + yoe / 4 - yoe / 100);
    let mp: u64 = (5 * doy + 2) / 153;
    let d: u64 = doy - (153 * mp + 2) / 5 + 1;
    let m: u64 = if mp < 10 {
        mp + 3
    } else {
        mp - 9
    };
    let year: u64 = if m <= 2 {
        y + 1
    } else {
        y
    };
    proof {
        lemma_march_decode(z as int);
        lemma_counts_agree(year as int, m as int, d as int);
        lemma_civil_of(days as int, year as int, m as int, d as int);
    }
    (year as i64, m as u32, d as u32)
}

// ---------------------------------------------------------------------
// Uniqueness of dates
// ---------------------------------------------------------------------

/// Where in its year a valid date falls: the position counts from 0 and
/// stays below the year's length, and a later month starts later.
proof fn lemma_day_of_year(y: int, m1: int, d1: int, m2: int, d2: int)
    requires
        1 <= m1 <= 12,
        1 <= d1 <= days_in_month(y, m1),
        1 <= m2 <= 12,
        1 <= d2 <= days_in_month(y, m2),
    ensures
        0 <= days_before_month(y, m1) + d1 - 1 < days_in_year(y),
        m1 < m2 ==> days_before_month(y, m1) + d1 < days_before_month(y, m2) + d2,
{
    reveal_with_fuel(days_before_month, 13);
}

proof fn lemma_years_increase(n1: nat, n2: nat)
    requires
        n1 <= n2,
    ensures
        days_before_year(n1) <= days_before_year(n2),
    decreases n2,
{
    if n1 < n2 {
        lemma_years_increase(n1, (n2 - 1) as nat);
    }
}

/// Law: each day number names at most one calendar date; distinct dates
/// from the epoch on have distinct day numbers.
pub proof fn lemma_date_unique(y1: int, m1: int, d1: int, y2: int, m2: int, d2: int)
    requires
        valid_date(y1, m1, d1),
        valid_date(y2, m2, d2),
        days_since_epoch(y1, m1, d1) == days_since_epoch(y2, m2, d2),
    ensures
        y1 == y2 && m1 == m2 && d1 == d2,
{
    lemma_day_of_year(y1, m1, d1, m1, d1);
    lemma_day_of_year(y2, m2, d2, m2, d2);
    if y1 < y2 {
        lemma_years_increase((y1 - 1970 + 1) as nat, (y2 - 1970) as nat);
        assert(days_before_year((y1 - 1970 + 1) as nat) == days_before_year((y1 - 1970) as nat)
            + days_in_year(y1));
        assert(false);
    } else if y2 < y1 {
        lemma_years_increase((y2 - 1970 + 1) as nat, (y1 - 1970) as nat);
        assert(days_before_year((y2 - 1970 + 1) as nat) == days_before_year((y2 - 1970) as nat)
            + days_in_year(y2));
        assert(false);
    } else {
        lemma_day_of_year(y1, m1, d1, m2, d2);
        lemma_day_of_year(y1, m2, d2, m1, d1);
    }
}

/// The calendar date `days` days after 1970-01-01.
pub open spec fn civil_of(days: int) -> (int, int, int) {
    choose|y: int, m: int, d: int| valid_date(y, m, d) && days_since_epoch(y, m, d) == days
}

proof fn lemma_civil_of(days: int, y: int, m: int, d: int)
    requires
        valid_date(y, m, d),
        days_since_epoch(y, m, d) == days,
    ensures
        civil_of(days) == (y, m, d),
{
    let (y2, m2, d2) = civil_of(days);
    lemma_date_unique(y, m, d, y2, m2, d2);
}

/// The calendar day after `y-m-d`.
pub open spec fn next_day(y: int, m: int, d: int) -> (int, int, int) {
    if d < days_in_month(y, m) {
        (y, m, d + 1)
    } else if m < 12 {
        (y, m + 1, 1)
    } else {
        (y + 1, 1, 1)
    }
}

/// The day after a valid date is a valid date one day number later.
proof fn lemma_next_day(y: int, m: int, d: int)
    requires
        valid_date(y, m, d),
    ensures
        valid_date(next_day(y, m, d).0, next_day(y, m, d).1, next_day(y, m, d).2),
        days_since_epoch(next_day(y, m, d).0, next_day(y, m, d).1, next_day(y, m, d).2)
            == days_since_epoch(y, m, d) + 1,
{
    if d < days_in_month(y, m) {
    } else if m < 12 {
        assert(days_before_month(y, m + 1) == days_before_month(y, m) + days_in_month(y, m));
    } else {
        reveal_with_fuel(days_before_month, 13);
        assert(days_before_month(y, 12) + 31 == days_in_year(y));
        assert(days_before_year((y + 1 - 1970) as nat) == days_before_year((y - 1970) as nat)
            + days_in_year(y));
    }
}

/// Law: day numbers count calendar days. Day 0 is 1970-01-01, every day
/// number from 0 on names a valid date, and the date of day number `n + 1`
/// is the calendar day after the date of day number `n`.
pub proof fn lemma_civil_next(n: nat)
    ensures
        civil_of(0) == (1970int, 1int, 1int),
        valid_date(civil_of(n as int).0, civil_of(n as int).1, civil_of(n as int).2),
        days_since_epoch(civil_of(n as int).0, civil_of(n as int).1, civil_of(n as int).2) == n,
        civil_of(n + 1int) == next_day(
            civil_of(n as int).0,
            civil_of(n as int).1,
            civil_of(n as int).2,
        ),
    decreases n,
{
    assert(days_since_epoch(1970, 1, 1) == 0);
    lemma_civil_of(0, 1970, 1, 1);
    if n > 0 {
        lemma_civil_next((n - 1) as nat);
        let (py, pm, pd) = civil_of(n - 1);
        lemma_next_day(py, pm, pd);
    }
    let (y, m, d) = civil_of(n as int);
    lemma_next_day(y, m, d);
    let (y2, m2, d2) = next_day(y, m, d);
    lemma_civil_of(n + 1int, y2, m2, d2);
}

// ---------------------------------------------------------------------
// Timestamps
// ---------------------------------------------------------------------

/// `YYYY-MM-DDTHH:MM:SSZ` for the instant `secs` seconds after the epoch,
/// in UTC with no leap seconds.
pub open spec fn utc_text(secs: nat) -> Seq<char> {
    let (y, m, d) = civil_of(secs as int / 86400);
    let rem = secs % 86400;
    zero_padded(y as nat, 4) + "-"@ + zero_padded(m as nat, 2) + "-"@ + zero_padded(d as nat, 2)
        + "T"@ + zero_padded(rem / 3600, 2) + ":"@ + zero_padded((rem % 3600) / 60, 2) + ":"@
        + zero_padded(rem % 60, 2) + "Z"@
}

/// The UTC timestamp written into the startup marker and the crash log for
/// the instant `secs` seconds after the Unix epoch.
pub fn chrono_like_utc(secs: u64) -> (r: String)
    ensures
        r@ == utc_text(secs as nat),
{
    let days = secs / 86_400;
    let rem = secs % 86_400;
    let (year, month, day) = days_to_ymd(days);
    proof {
        lemma_civil_of(days as int, year as int, month as int, day as int);
    }
    let mut s = String::new();
    push_zero_padded(&mut s, year as u64, 4);
    s.append("-");
    push_zero_padded(&mut s, month as u64, 2);
    s.append("-");
    push_zero_padded(&mut s, day as u64, 2);
    s.append("T");
    push_zero_padded(&mut s, rem / 3600, 2);
    s.append(":");
    push_zero_padded(&mut s, (rem % 3600) / 60, 2);
    s.append(":");
    push_zero_padded(&mut s, rem % 60, 2);
    s.append("Z");
    assert(s@ =~= utc_text(secs as nat));
    s
}

} // verus!
