//! Dates of the proleptic Gregorian calendar, counted in days from
//! 1970-01-01.

use vstd::prelude::*;
use vstd::arithmetic::div_mod::{lemma_fundamental_div_mod, lemma_fundamental_div_mod_converse};

verus! {

/// Whether year `y` has 366 days.
pub open spec fn is_leap_year(y: int) -> bool {
    y % 4 == 0 && (y % 100 != 0 || y % 400 == 0)
}

/// The number of leap years among the years 1 to `n` (counted backwards
/// from year 0 when `n` is negative).
pub open spec fn leap_years_through(n: int) -> int {
    n / 4 - n / 100 + n / 400
}

/// The number of days of month `m` (1 to 12) of year `y`.
pub open spec fn month_len(y: int, m: int) -> int {
    if m == 2 {
        if is_leap_year(y) {
            29
        } else {
            28
        }
    } else if m == 4 || m == 6 || m == 9 || m == 11 {
        30
    } else {
        31
    }
}

/// The number of days of year `y` before month `m` starts.
pub open spec fn days_before_month(y: int, m: int) -> int {
    let common: int = if m == 1 {
        0
    } else if m == 2 {
        31
    } else if m == 3 {
        59
    } else if m == 4 {
        90
    } else if m == 5 {
        120
    } else if m == 6 {
        151
    } else if m == 7 {
        181
    } else if m == 8 {
        212
    } else if m == 9 {
        243
    } else if m == 10 {
        273
    } else if m == 11 {
        304
    } else {
        334
    };
    if m > 2 && is_leap_year(y) {
        common + 1
    } else {
        common
    }
}

/// `(y, m, d)` is a date: a month from 1 to 12 and a day of that month.
pub open spec fn is_valid_date(y: int, m: int, d: int) -> bool {
    1 <= m <= 12 && 1 <= d <= month_len(y, m)
}

/// The number of days from 1970-01-01 to the date `(y, m, d)`.
pub open spec fn days_from_civil(y: int, m: int, d: int) -> int {
    365 * (y - 1970) + leap_years_through(y - 1) - leap_years_through(1969) + days_before_month(
        y,
        m,
    ) + d - 1
}

/// The day of a March-based year on which its month `mp` starts (0 is
/// March, 11 is February).
pub open spec fn march_offset(mp: int) -> int {
    (153 * mp + 2) / 5
}

/// The length of month `mp` of a March-based year, `leap` telling whether
/// its February has 29 days.
pub open spec fn march_month_len(mp: int, leap: bool) -> int {
    if mp == 11 {
        if leap {
            29
        } else {
            28
        }
    } else if mp == 1 || mp == 3 || mp == 6 || mp == 8 {
        30
    } else {
        31
    }
}

/// The year of a 400-year era that day `doe` of the era falls in, years
/// starting on March 1.
pub open spec fn year_of_era(doe: int) -> int {
    (doe - doe / 1460 + doe / 36524 - doe / 146096) / 365
}

/// The day of an era on which its year `yoe` starts.
pub open spec fn era_year_start(yoe: int) -> int {
    365 * yoe + yoe / 4 - yoe / 100
}

/// `year_of_era` finds the year that day `doe` of an era falls in.
proof fn lemma_year_of_era(doe: int)
    requires
        0 <= doe < 146097,
    ensures
        0 <= year_of_era(doe) < 400,
        0 <= doe - era_year_start(year_of_era(doe)),
        doe - era_year_start(year_of_era(doe)) < 365 + (if is_leap_year(year_of_era(doe) + 1) {
            1int
        } else {
            0int
        }),
{
    // Split the era into centuries (the last one a day longer), four-year
    // cycles and years.
    let c: int = if doe / 36524 >= 3 { 3 } else { doe / 36524 };
    let r1 = doe - 36524 * c;
    let q = r1 / 1461;
    let r2 = r1 % 1461;
    let y4: int = if r2 / 365 >= 3 { 3 } else { r2 / 365 };
    let doy = r2 - 365 * y4;
    lemma_fundamental_div_mod(doe, 36524);
    lemma_fundamental_div_mod(r1, 1461);
    lemma_fundamental_div_mod(r2, 365);
    assert(0 <= c <= 3);
    assert(0 <= r1 <= 36524);
    assert(c < 3 ==> r1 < 36524);
    assert(0 <= q <= 24);
    assert(0 <= r2 < 1461);
    assert(0 <= y4 <= 3);
    assert(0 <= doy <= 365);
    assert(doe == 36524 * c + 1461 * q + 365 * y4 + doy);
    assert(q == 24 && r2 == 1460 ==> c == 3);
    // The quotients of the closed form, in terms of the split.
    let s = 24 * c + q + 365 * y4 + doy;
    let s4: int = if s >= 1460 { 1 } else { 0 };
    assert(0 <= s < 2920);
    lemma_fundamental_div_mod_converse(doe, 1460, 25 * c + q + s4, s - 1460 * s4);
    assert(doe / 1460 == 25 * c + q + s4);
    let b: int = if doe == 146096 { 4 } else { c };
    lemma_fundamental_div_mod_converse(doe, 36524, b, doe - 36524 * b);
    assert(doe / 36524 == b);
    let e: int = if doe == 146096 { 1 } else { 0 };
    lemma_fundamental_div_mod_converse(doe, 146096, e, doe - 146096 * e);
    assert(doe / 146096 == e);
    let yoe = 100 * c + 4 * q + y4;
    let k = doe - doe / 1460 + doe / 36524 - doe / 146096;
    assert(k == 365 * yoe + doy - s4 + (b - c) - e);
    assert(s4 == 1 ==> y4 == 3 && doy >= 269);
    assert(doy == 365 ==> s4 == 1);
    lemma_fundamental_div_mod_converse(k, 365, yoe, doy - s4 + (b - c) - e);
    assert(year_of_era(doe) == yoe);
    lemma_fundamental_div_mod_converse(yoe, 4, 25 * c + q, y4);
    lemma_fundamental_div_mod_converse(yoe, 100, c, 4 * q + y4);
    assert(era_year_start(yoe) == 365 * yoe + 24 * c + q);
    assert(doe - era_year_start(yoe) == doy);
    if doy == 365 {
        assert(y4 == 3);
        if q == 24 {
            assert(yoe + 1 == 400);
        } else {
            lemma_fundamental_div_mod_converse(yoe + 1, 4, 25 * c + q + 1, 0);
            lemma_fundamental_div_mod_converse(yoe + 1, 100, c, 4 * q + 4);
        }
    }
}

/// The month and day of day `doy` of a March-based year.
proof fn lemma_march_day(doy: int, leap: bool)
    requires
        0 <= doy < 365 + (if leap { 1int } else { 0int }),
    ensures
        0 <= (5 * doy + 2) / 153 < 12,
        1 <= doy - march_offset((5 * doy + 2) / 153) + 1 <= march_month_len((5 * doy + 2) / 153, leap),
{
    let mp = (5 * doy + 2) / 153;
    lemma_fundamental_div_mod(5 * doy + 2, 153);
    assert(153 * mp <= 5 * doy + 2 < 153 * mp + 153);
    assert(0 <= mp < 12);
    if mp == 0 {
    } else if mp == 1 {
    } else if mp == 2 {
    } else if mp == 3 {
    } else if mp == 4 {
    } else if mp == 5 {
    } else if mp == 6 {
    } else if mp == 7 {
    } else if mp == 8 {
    } else if mp == 9 {
    } else if mp == 10 {
    } else {
    }
}

/// `leap_years_through` grows by one exactly at a leap year.
proof fn lemma_leap_step(y: int)
    ensures
        leap_years_through(y) == leap_years_through(y - 1) + (if is_leap_year(y) { 1int } else { 0int }),
{
    lemma_fundamental_div_mod(y, 4);
    lemma_fundamental_div_mod(y - 1, 4);
    lemma_fundamental_div_mod(y, 100);
    lemma_fundamental_div_mod(y - 1, 100);
    lemma_fundamental_div_mod(y, 400);
    lemma_fundamental_div_mod(y - 1, 400);
    if y % 4 == 0 {
        lemma_fundamental_div_mod_converse(y - 1, 4, y / 4 - 1, 3);
    } else {
        lemma_fundamental_div_mod_converse(y - 1, 4, y / 4, y % 4 - 1);
    }
    if y % 100 == 0 {
        lemma_fundamental_div_mod_converse(y - 1, 100, y / 100 - 1, 99);
    } else {
        lemma_fundamental_div_mod_converse(y - 1, 100, y / 100, y % 100 - 1);
    }
    if y % 400 == 0 {
        lemma_fundamental_div_mod_converse(y - 1, 400, y / 400 - 1, 399);
    } else {
        lemma_fundamental_div_mod_converse(y - 1, 400, y / 400, y % 400 - 1);
    }
    if y % 100 == 0 {
        lemma_fundamental_div_mod_converse(y, 4, y / 100 * 25, 0);
    }
    if y % 400 == 0 {
        lemma_fundamental_div_mod_converse(y, 100, y / 400 * 4, 0);
    }
}

/// Leap years of whole eras: 97 in each.
proof fn lemma_leaps_of_era(era: int, yoe: int)
    requires
        0 <= yoe < 400,
    ensures
        leap_years_through(400 * era + yoe) == 97 * era + yoe / 4 - yoe / 100,
        is_leap_year(400 * era + yoe) == is_leap_year(yoe),
{
    lemma_fundamental_div_mod(yoe, 4);
    lemma_fundamental_div_mod(yoe, 100);
    lemma_fundamental_div_mod_converse(400 * era + yoe, 4, 100 * era + yoe / 4, yoe % 4);
    lemma_fundamental_div_mod_converse(400 * era + yoe, 100, 4 * era + yoe / 100, yoe % 100);
    lemma_fundamental_div_mod_converse(400 * era + yoe, 400, era, yoe);
    lemma_fundamental_div_mod_converse(yoe, 400, 0, yoe);
}

/// The date whose day count `days_from_civil` gives back `days`, from its
/// era, year of era, March-based month and day.
proof fn lemma_civil_from_parts(days: int, era: int, doe: int)
    requires
        0 <= doe < 146097,
        days + 719468 == era * 146097 + doe,
    ensures
        ({
            let yoe = year_of_era(doe);
            let doy = doe - era_year_start(yoe);
            let mp = (5 * doy + 2) / 153;
            let d = doy - march_offset(mp) + 1;
            let m = if mp < 10 { mp + 3 } else { mp - 9 };
            let y = yoe + era * 400 + if m <= 2 { 1int } else { 0int };
            is_valid_date(y, m, d) && days_from_civil(y, m, d) == days
        }),
{
    let yoe = year_of_era(doe);
    lemma_year_of_era(doe);
    let doy = doe - era_year_start(yoe);
    let leap = is_leap_year(yoe + 1);
    lemma_march_day(doy, leap);
    let mp = (5 * doy + 2) / 153;
    let d = doy - march_offset(mp) + 1;
    let m = if mp < 10 { mp + 3 } else { mp - 9 };
    let y = yoe + era * 400 + if m <= 2 { 1int } else { 0int };
    let yp = 400 * era + yoe;
    lemma_leaps_of_era(era, yoe);
    if yoe + 1 < 400 {
        lemma_leaps_of_era(era, yoe + 1);
    } else {
        lemma_leaps_of_era(era + 1, 0);
        assert(is_leap_year(yoe + 1)) by {
            lemma_fundamental_div_mod_converse(400, 4, 100, 0);
            lemma_fundamental_div_mod_converse(400, 100, 4, 0);
            lemma_fundamental_div_mod_converse(400, 400, 1, 0);
        }
    }
    lemma_leap_step(yp);
    assert(leap_years_through(1969) == 477) by {
        lemma_fundamental_div_mod_converse(1969, 4, 492, 1);
        lemma_fundamental_div_mod_converse(1969, 100, 19, 69);
        lemma_fundamental_div_mod_converse(1969, 400, 4, 369);
    }
    if m <= 2 {
        assert(y == yp + 1);
        assert(is_leap_year(y) == leap);
    } else {
        assert(y == yp);
    }
    assert(is_valid_date(y, m, d));
    assert(days_from_civil(y, m, d) == days);
}

/// The number of days from 1970-01-01 to the first day of year `y`.
pub open spec fn days_before_year(y: int) -> int {
    365 * (y - 1970) + leap_years_through(y - 1) - leap_years_through(1969)
}

/// The date that lies `days` days after 1970-01-01 (before it when negative).
pub open spec fn date_of_day(days: int) -> (int, int, int) {
    choose|date: (int, int, int)|
        is_valid_date(date.0, date.1, date.2) && days_from_civil(date.0, date.1, date.2) == days
}

/// Each year is one day longer than 365 days when it is a leap year.
proof fn lemma_year_step(y: int)
    ensures
        days_before_year(y + 1) == days_before_year(y) + 365 + (if is_leap_year(y) { 1int } else { 0int }),
{
    lemma_leap_step(y);
}

/// Later years start at least a year's worth of days later.
pub proof fn lemma_years_ordered(a: int, b: int)
    requires
        a < b,
    ensures
        days_before_year(a) + 365 <= days_before_year(b),
    decreases b - a,
{
    lemma_year_step(a);
    if a + 1 < b {
        lemma_years_ordered(a + 1, b);
    }
}

/// A date lies inside its year, and a later month of the year starts after
/// every day of an earlier one.
pub proof fn lemma_day_of_year(y: int, m: int, d: int)
    requires
        is_valid_date(y, m, d),
    ensures
        0 <= days_from_civil(y, m, d) - days_before_year(y) < 365 + (if is_leap_year(y) { 1int } else { 0int }),
        forall|m2: int, d2: int|
            m < m2 && #[trigger] is_valid_date(y, m2, d2) ==> days_from_civil(y, m, d)
                < days_from_civil(y, m2, d2),
{
}

/// A date whose day count is `days`.
proof fn lemma_some_date(days: int) -> (date: (int, int, int))
    ensures
        is_valid_date(date.0, date.1, date.2),
        days_from_civil(date.0, date.1, date.2) == days,
{
    let z = days + 719468;
    lemma_fundamental_div_mod(z, 146097);
    let era = z / 146097;
    let doe = z % 146097;
    lemma_civil_from_parts(days, era, doe);
    let yoe = year_of_era(doe);
    let doy = doe - era_year_start(yoe);
    let mp = (5 * doy + 2) / 153;
    let d0 = doy - march_offset(mp) + 1;
    let m0 = if mp < 10 { mp + 3 } else { mp - 9 };
    let y0 = yoe + era * 400 + if m0 <= 2 { 1int } else { 0int };
    (y0, m0, d0)
}

/// Every day count names a date, and only one.
pub proof fn lemma_date_of_day(days: int)
    ensures
        is_valid_date(date_of_day(days).0, date_of_day(days).1, date_of_day(days).2),
        days_from_civil(date_of_day(days).0, date_of_day(days).1, date_of_day(days).2) == days,
        forall|y: int, m: int, d: int|
            #[trigger] is_valid_date(y, m, d) && days_from_civil(y, m, d) == days ==> (y, m, d)
                == date_of_day(days),
{
    let witness = lemma_some_date(days);
    assert(is_valid_date(witness.0, witness.1, witness.2) && days_from_civil(
        witness.0,
        witness.1,
        witness.2,
    ) == days);
    let date = date_of_day(days);
    assert forall|y: int, m: int, d: int|
        #[trigger] is_valid_date(y, m, d) && days_from_civil(y, m, d) == days implies (y, m, d)
            == date by {
        lemma_dates_distinct(y, m, d, date.0, date.1, date.2);
    }
}

/// Two dates with the same day count are the same date.
pub proof fn lemma_dates_distinct(y1: int, m1: int, d1: int, y2: int, m2: int, d2: int)
    requires
        is_valid_date(y1, m1, d1),
        is_valid_date(y2, m2, d2),
        days_from_civil(y1, m1, d1) == days_from_civil(y2, m2, d2),
    ensures
        y1 == y2 && m1 == m2 && d1 == d2,
{
    lemma_day_of_year(y1, m1, d1);
    lemma_day_of_year(y2, m2, d2);
    if y1 < y2 {
        lemma_year_step(y1);
        lemma_years_ordered(y1, y2);
        if y1 + 1 < y2 {
            lemma_years_ordered(y1 + 1, y2);
        }
    } else if y2 < y1 {
        lemma_year_step(y2);
        if y2 + 1 < y1 {
            lemma_years_ordered(y2 + 1, y1);
        }
    }
}

/// The date `days` days after 1970-01-01 (before it when negative), as
/// year, month (1 to 12) and day of the month.
pub fn civil_date_from_unix_days(days: i64) -> (r: (i64, u32, u32))
    requires
        days <= i64::MAX - 719468,
    ensures
        is_valid_date(r.0 as int, r.1 as int, r.2 as int),
        days_from_civil(r.0 as int, r.1 as int, r.2 as int) == days,
        (r.0 as int, r.1 as int, r.2 as int) == date_of_day(days as int),
{
    let z = days + 719468;
    let era = if z >= 0 { z } else { z - 146096 } / 146097;
    let day_of_era = z - era * 146097;
    assert(0 <= day_of_era < 146097);
    let year_of_era = (day_of_era - day_of_era / 1460 + day_of_era / 36524 - day_of_era / 146096)
        / 365;
    proof {
        lemma_year_of_era(day_of_era as int);
        lemma_civil_from_parts(days as int, era as int, day_of_era as int);
    }
    let mut year = year_of_era + era * 400;
    let day_of_year = day_of_era - (365 * year_of_era + year_of_era / 4 - year_of_era / 100);
    proof {
        lemma_march_day(day_of_year as int, is_leap_year(year_of_era + 1));
    }
    let month_prime = (5 * day_of_year + 2) / 153;
    let day = day_of_year - (153 * month_prime + 2) / 5 + 1;
    let month = month_prime + if month_prime < 10 { 3 } else { -9 };
    if month <= 2 {
        year += 1;
    }
    proof {
        lemma_date_of_day(days as int);
    }
    (year, month as u32, day as u32)
}

} // verus!
