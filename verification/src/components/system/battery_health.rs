//! The battery health history: the calendar date of a day count and the
//! rule for when a new history entry is recorded.
use vstd::prelude::*;
use crate::text::{
    parse_trimmed_u64, push_str, push_zero_padded, spec_decimal, spec_parse_unsigned, spec_trim,
    spec_zero_pad, str_eq,
};

verus! {

pub open spec fn spec_is_leap(y: int) -> bool {
    y % 4 == 0 && (y % 100 != 0 || y % 400 == 0)
}

pub open spec fn spec_year_days(y: int) -> nat {
    if spec_is_leap(y) {
        366
    } else {
        365
    }
}

/// The days from 1 January 1970 to 1 January of year `y`.
pub open spec fn spec_days_before_year(y: int) -> nat
    decreases y - 1970,
{
    if y <= 1970 {
        0
    } else {
        spec_days_before_year(y - 1) + spec_year_days(y - 1)
    }
}

pub open spec fn spec_month_days(y: int, m: int) -> nat {
    if m == 2 {
        if spec_is_leap(y) {
            29
        } else {
            28
        }
    } else if m == 4 || m == 6 || m == 9 || m == 11 {
        30
    } else {
        31
    }
}

/// The days from 1 January to the first of month `m` in year `y`.
pub open spec fn spec_days_before_month(y: int, m: int) -> nat
    decreases m,
{
    if m <= 1 {
        0
    } else {
        spec_days_before_month(y, m - 1) + spec_month_days(y, m - 1)
    }
}

/// A date of the Gregorian calendar on or after 1 January 1970.
pub open spec fn spec_valid_date(y: int, m: int, d: int) -> bool {
    y >= 1970 && 1 <= m <= 12 && 1 <= d <= spec_month_days(y, m)
}

/// The number of days from 1 January 1970 to the date.
pub open spec fn spec_day_number(y: int, m: int, d: int) -> int {
    spec_days_before_year(y) + spec_days_before_month(y, m) + d - 1
}

/// The twelve months fill the year exactly.
pub proof fn lemma_months_fill_year(y: int)
    ensures
        spec_days_before_month(y, 13) == spec_year_days(y),
{
    reveal_with_fuel(spec_days_before_month, 13);
}

/// Later months start later.
pub proof fn lemma_days_before_month_grows(y: int, m1: int, m2: int)
    requires
        1 <= m1 < m2 <= 13,
    ensures
        spec_days_before_month(y, m1) + spec_month_days(y, m1) <= spec_days_before_month(y, m2),
    decreases m2 - m1,
{
    if m2 > m1 + 1 {
        lemma_days_before_month_grows(y, m1, m2 - 1);
    }
}

/// Later years start later, by at least 365 days a year.
pub proof fn lemma_days_before_year_grows(y1: int, y2: int)
    requires
        1970 <= y1 <= y2,
    ensures
        spec_days_before_year(y1) + 365 * (y2 - y1) <= spec_days_before_year(y2),
        y1 < y2 ==> spec_days_before_year(y1) + spec_year_days(y1) <= spec_days_before_year(y2),
    decreases y2 - y1,
{
    if y1 < y2 {
        lemma_days_before_year_grows(y1, y2 - 1);
    }
}

/// Within a valid date, the day of the year is less than the year's length.
pub proof fn lemma_day_in_year(y: int, m: int, d: int)
    requires
        spec_valid_date(y, m, d),
    ensures
        spec_days_before_month(y, m) + d - 1 < spec_year_days(y),
{
    lemma_days_before_month_grows(y, m, 13);
    lemma_months_fill_year(y);
}

/// A valid date and its day number determine each other: two valid dates
/// with the same day number are the same date.
pub proof fn lemma_date_unique(y1: int, m1: int, d1: int, y2: int, m2: int, d2: int)
    requires
        spec_valid_date(y1, m1, d1),
        spec_valid_date(y2, m2, d2),
        spec_day_number(y1, m1, d1) == spec_day_number(y2, m2, d2),
    ensures
        y1 == y2 && m1 == m2 && d1 == d2,
{
    lemma_day_in_year(y1, m1, d1);
    lemma_day_in_year(y2, m2, d2);
    if y1 < y2 {
        lemma_days_before_year_grows(y1, y2);
    } else if y2 < y1 {
        lemma_days_before_year_grows(y2, y1);
    } else if m1 < m2 {
        lemma_days_before_month_grows(y1, m1, m2);
    } else if m2 < m1 {
        lemma_days_before_month_grows(y1, m2, m1);
    }
}

fn is_leap(year: u64) -> (r: bool)
    ensures
        r == spec_is_leap(year as int),
{
    year % 4 == 0 && (year % 100 != 0 || year % 400 == 0)
}

fn month_length(leap: bool, year: Ghost<int>, month: u64) -> (r: u64)
    requires
        leap == spec_is_leap(year@),
    ensures
        r == spec_month_days(year@, month as int),
{
    if month == 2 {
        if leap {
            29
        } else {
            28
        }
    } else if month == 4 || month == 6 || month == 9 || month == 11 {
        30
    } else {
        31
    }
}

/// The calendar date `(year, month, day)` that lies `days` days after
/// 1 January 1970.
pub fn epoch_days_to_ymd(days: u64) -> (r: (u64, u64, u64))
    ensures
        spec_valid_date(r.0 as int, r.1 as int, r.2 as int),
        spec_day_number(r.0 as int, r.1 as int, r.2 as int) == days,
{
    let ghost total = days as int;
    let mut days = days;
    let mut year: u64 = 1970;
    loop
        invariant
            1970 <= year,
            total == spec_days_before_year(year as int) + days,
            365 * (year - 1970) <= total - days,
            total <= u64::MAX,
        ensures
            1970 <= year,
            total == spec_days_before_year(year as int) + days,
            days < spec_year_days(year as int),
        decreases days,
    {
        proof {
            lemma_days_before_year_grows(1970, year as int);
        }
        let yd: u64 = if is_leap(year) {
            366
        } else {
            365
        };
        if days < yd {
            break;
        }
        days -= yd;
        year += 1;
    }
    let leap = is_leap(year);
    let mut month: u64 = 1;
    loop
        invariant
            1 <= month <= 12,
            leap == spec_is_leap(year as int),
            total == spec_days_before_year(year as int) + spec_days_before_month(year as int, month as int) + days,
            spec_days_before_month(year as int, month as int) + days < spec_year_days(year as int),
        ensures
            1 <= month <= 12,
            total == spec_days_before_year(year as int) + spec_days_before_month(year as int, month as int) + days,
            days < spec_month_days(year as int, month as int),
        decreases 12 - month,
    {
        let mdays = month_length(leap, Ghost(year as int), month);
        if days < mdays {
            break;
        }
        proof {
            lemma_months_fill_year(year as int);
            if month == 12 {
                assert(spec_days_before_month(year as int, 13) == spec_days_before_month(year as int, 12) + spec_month_days(year as int, 12));
            }
        }
        days -= mdays;
        month += 1;
    }
    (year, month, days + 1)
}

/// `YYYY-MM-DD` with the year padded to at least four digits and month and
/// day to two.
pub open spec fn spec_date_text(y: nat, m: nat, d: nat) -> Seq<char> {
    spec_zero_pad(spec_decimal(y), 4) + "-"@ + spec_zero_pad(spec_decimal(m), 2) + "-"@
        + spec_zero_pad(spec_decimal(d), 2)
}

/// Today's date for the health history, from the seconds since the Unix
/// epoch: `YYYY-MM-DD` of the day they fall in.
pub fn date_for_epoch_secs(secs: u64) -> (r: String)
    ensures
        exists|y: nat, m: nat, d: nat|
            spec_valid_date(y as int, m as int, d as int) && spec_day_number(y as int, m as int, d as int) == secs / 86400
                && r@ == spec_date_text(y, m, d),
{
    let (y, m, d) = epoch_days_to_ymd(secs / 86400);
    let mut s = String::new();
    push_zero_padded(&mut s, y, 4);
    push_str(&mut s, "-");
    push_zero_padded(&mut s, m, 2);
    push_str(&mut s, "-");
    push_zero_padded(&mut s, d, 2);
    assert(s@ =~= spec_date_text(y as nat, m as nat, d as nat));
    s
}

/// An energy reading in µWh from the contents of a sysfs file (`None` when
/// it could not be read): the trimmed contents as a number, or `default`.
pub fn energy_reading(contents: Option<&str>, default: u64) -> (r: u64)
    ensures
        r == match contents {
            Some(c) => match spec_parse_unsigned(spec_trim(c@), u64::MAX as nat) {
                Some(v) => v as u64,
                None => default,
            },
            None => default,
        },
{
    match contents {
        Some(c) => match parse_trimmed_u64(c) {
            Some(v) => v,
            None => default,
        },
        None => default,
    }
}

/// Whether today's reading is added to the history: only when the last
/// entry (if any) is from another day.
pub fn should_record(last_date: Option<&str>, today: &str) -> (r: bool)
    ensures
        r == match last_date {
            Some(d) => d@ != today@,
            None => today@ != ""@,
        },
{
    match last_date {
        Some(d) => !str_eq(d, today),
        None => !str_eq("", today),
    }
}

} // verus!
