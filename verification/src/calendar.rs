//! The proleptic Gregorian calendar as arithmetic on integers.

use vstd::arithmetic::div_mod::lemma_mod_multiples_vanish;
use vstd::prelude::*;

verus! {

/// The earliest year a date may lie in.
pub const MIN_YEAR: i32 = -262143;

/// The latest year a date may lie in.
pub const MAX_YEAR: i32 = 262142;

/// Days from 0001-01-01 to 1970-01-01.
pub const EPOCH_DAY: i64 = 719162;

/// Milliseconds in one day.
pub const MILLIS_PER_DAY: i64 = 86_400_000;

/// A year divisible by 4 is a leap year, unless it is divisible by 100 and
/// not by 400.
pub open spec fn is_leap_year(year: int) -> bool {
    year % 4 == 0 && (year % 100 != 0 || year % 400 == 0)
}

pub open spec fn days_in_year(year: int) -> int {
    if is_leap_year(year) {
        366
    } else {
        365
    }
}

pub open spec fn days_in_month(year: int, month: int) -> int {
    if month == 2 {
        if is_leap_year(year) {
            29
        } else {
            28
        }
    } else if month == 4 || month == 6 || month == 9 || month == 11 {
        30
    } else {
        31
    }
}

/// Days of `year` that lie before the first of `month`.
pub open spec fn days_before_month(year: int, month: int) -> int
    decreases month,
{
    if month <= 1 {
        0
    } else {
        days_before_month(year, month - 1) + days_in_month(year, month - 1)
    }
}

/// Days from 0001-01-01 to the first of January of `year`.
pub open spec fn days_before_year(year: int) -> int {
    let y = year - 1;
    365 * y + y / 4 - y / 100 + y / 400
}

/// Whether year, month and day name a day of the calendar within the years
/// that a date may lie in.
pub open spec fn valid_date(year: int, month: int, day: int) -> bool {
    &&& MIN_YEAR <= year <= MAX_YEAR
    &&& 1 <= month <= 12
    &&& 1 <= day <= days_in_month(year, month)
}

/// Signed count of days from 1970-01-01 to the given day.
pub open spec fn days_from_epoch(year: int, month: int, day: int) -> int {
    days_before_year(year) + days_before_month(year, month) + (day - 1) - EPOCH_DAY
}

/// Day count of the earliest date, -262143-01-01.
pub open spec fn min_day_offset() -> int {
    -96465292
}

/// Day count of the latest date, 262142-12-31.
pub open spec fn max_day_offset() -> int {
    95026236
}

/// Each year begins where the year before it ends.
pub proof fn lemma_year_step(year: int)
    ensures
        days_before_year(year + 1) == days_before_year(year) + days_in_year(year),
{
}

/// A later year begins no earlier than the end of an earlier one.
pub proof fn lemma_year_order(a: int, b: int)
    requires
        a < b,
    ensures
        days_before_year(a) + days_in_year(a) <= days_before_year(b),
    decreases b - a,
{
    lemma_year_step(a);
    if a + 1 < b {
        lemma_year_order(a + 1, b);
        lemma_year_step(a + 1);
    }
}

/// A later month begins no earlier than the end of an earlier one, and the
/// twelve months fill the year.
pub proof fn lemma_month_order(year: int, a: int, b: int)
    requires
        1 <= a < b <= 13,
    ensures
        0 <= days_before_month(year, a),
        days_before_month(year, a) + days_in_month(year, a) <= days_before_month(year, b),
        days_before_month(year, 13) == days_in_year(year),
{
    reveal_with_fuel(days_before_month, 14);
}

/// The position of a valid date within its year.
pub proof fn lemma_day_of_year(year: int, month: int, day: int)
    requires
        1 <= month <= 12,
        1 <= day <= days_in_month(year, month),
    ensures
        0 <= days_before_month(year, month) + (day - 1) < days_in_year(year),
{
    lemma_month_order(year, month, 13);
}

/// Two valid dates with one day count are one date.
pub proof fn lemma_days_injective(y1: int, m1: int, d1: int, y2: int, m2: int, d2: int)
    requires
        valid_date(y1, m1, d1),
        valid_date(y2, m2, d2),
        days_from_epoch(y1, m1, d1) == days_from_epoch(y2, m2, d2),
    ensures
        y1 == y2,
        m1 == m2,
        d1 == d2,
{
    lemma_day_of_year(y1, m1, d1);
    lemma_day_of_year(y2, m2, d2);
    if y1 < y2 {
        lemma_year_order(y1, y2);
    } else if y2 < y1 {
        lemma_year_order(y2, y1);
    } else if m1 < m2 {
        lemma_month_order(y1, m1, m2);
    } else if m2 < m1 {
        lemma_month_order(y1, m2, m1);
    }
}

/// Every valid date lies between the earliest and the latest day count.
pub proof fn lemma_days_in_range(year: int, month: int, day: int)
    requires
        valid_date(year, month, day),
    ensures
        min_day_offset() <= days_from_epoch(year, month, day) <= max_day_offset(),
{
    lemma_day_of_year(year, month, day);
    if MIN_YEAR < year {
        lemma_year_order(MIN_YEAR as int, year);
    }
    if year < MAX_YEAR {
        lemma_year_order(year, MAX_YEAR as int);
    }
}

/// Whether `year` is a leap year.
pub fn leap_year(year: i32) -> (leap: bool)
    requires
        MIN_YEAR <= year <= MAX_YEAR,
    ensures
        leap == is_leap_year(year as int),
{
    // 400_000 is a multiple of 400, so the remainders are those of `year`.
    let shifted: u32 = (year + 400_000) as u32;
    proof {
        lemma_shift_by_cycles(year as int);
    }
    let by_4: bool = shifted % 4 == 0;
    let by_100: bool = shifted % 100 == 0;
    let by_400: bool = shifted % 400 == 0;
    by_4 && (!by_100 || by_400)
}

/// Adding a multiple of 400 years changes no remainder that the leap-year
/// rule looks at.
proof fn lemma_shift_by_cycles(year: int)
    ensures
        (year + 400_000) % 4 == year % 4,
        (year + 400_000) % 100 == year % 100,
        (year + 400_000) % 400 == year % 400,
{
    lemma_mod_multiples_vanish(100_000, year, 4);
    lemma_mod_multiples_vanish(4_000, year, 100);
    lemma_mod_multiples_vanish(1_000, year, 400);
}

/// The number of days of a month.
pub fn month_length(year: i32, month: u32) -> (days: u32)
    requires
        MIN_YEAR <= year <= MAX_YEAR,
        1 <= month <= 12,
    ensures
        days == days_in_month(year as int, month as int),
{
    if month == 2 {
        if leap_year(year) {
            29
        } else {
            28
        }
    } else if month == 4 || month == 6 || month == 9 || month == 11 {
        30
    } else {
        31
    }
}

} // verus!
