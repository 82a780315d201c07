//! The proleptic Gregorian calendar as arithmetic: the day number of a civil
//! date relative to 1970-01-01, its inverse, and the proof that the two are
//! inverse to each other on every civil date and every day number.
//!
//! Years are counted from March ("shifted" years), so that the leap day is the
//! last day of a shifted year; 400 years make an era of 146097 days.
use vstd::prelude::*;

verus! {

pub open spec fn spec_is_leap_year(year: int) -> bool {
    year % 4 == 0 && (year % 100 != 0 || year % 400 == 0)
}

/// Days in a month of the given year; 0 for a month number outside 1..=12.
pub open spec fn spec_days_in_month(year: int, month: int) -> int {
    if month == 1 || month == 3 || month == 5 || month == 7 || month == 8 || month == 10 || month
        == 12 {
        31
    } else if month == 4 || month == 6 || month == 9 || month == 11 {
        30
    } else if month == 2 {
        if spec_is_leap_year(year) {
            29
        } else {
            28
        }
    } else {
        0
    }
}

/// A month of 1..=12 and a day that the month has, in any year.
pub open spec fn is_civil_date(year: int, month: int, day: int) -> bool {
    1 <= month <= 12 && 1 <= day <= spec_days_in_month(year, month)
}

/// Month counted from March: March is 0, February is 11.
pub open spec fn shifted_month(month: int) -> int {
    if month > 2 {
        month - 3
    } else {
        month + 9
    }
}

/// The year that starts with the March on or before the given month.
pub open spec fn shifted_year(year: int, month: int) -> int {
    if month <= 2 {
        year - 1
    } else {
        year
    }
}

/// Days from March 1 to the given day of a shifted month.
pub open spec fn day_of_shifted_year(shifted_month: int, day: int) -> int {
    (153 * shifted_month + 2) / 5 + day - 1
}

/// Days from the start of an era to the start of its year `yoe` (0..=399).
pub open spec fn year_start(yoe: int) -> int {
    365 * yoe + yoe / 4 - yoe / 100
}

/// Days in shifted year `yoe` of an era: 366 when its February has a 29th.
pub open spec fn shifted_year_len(yoe: int) -> int {
    if spec_is_leap_year(yoe + 1) {
        366
    } else {
        365
    }
}

pub open spec fn shifted_month_len(mp: int, leap: bool) -> int {
    if mp == 11 {
        if leap {
            29
        } else {
            28
        }
    } else if mp == 1 || mp == 3 || mp == 6 || mp == 8 {
        30
    } else {
        31
    }
}

/// The year of an era in which day `doe` (0..=146096) of the era falls.
pub open spec fn year_of_era(doe: int) -> int {
    (doe - doe / 1460 + doe / 36524 - doe / 146096) / 365
}

/// Day number of a date, 1970-01-01 being day 0 (for every year, month and
/// day number, valid or not).
pub open spec fn days_from_civil(year: int, month: int, day: int) -> int {
    let y = shifted_year(year, month);
    let era = y / 400;
    let yoe = y - era * 400;
    era * 146097 + year_start(yoe) + day_of_shifted_year(shifted_month(month), day) - 719468
}

/// The civil date (year, month, day) of a day number.
pub open spec fn civil_from_days(n: int) -> (int, int, int) {
    let shifted = n + 719468;
    let era = shifted / 146097;
    let doe = shifted - era * 146097;
    let yoe = year_of_era(doe);
    let doy = doe - year_start(yoe);
    let mp = (5 * doy + 2) / 153;
    let day = doy - (153 * mp + 2) / 5 + 1;
    let month = if mp < 10 {
        mp + 3
    } else {
        mp - 9
    };
    let year = yoe + era * 400 + if month <= 2 {
        1int
    } else {
        0int
    };
    (year, month, day)
}

/// Day number of 0001-01-01.
pub open spec fn first_day() -> int {
    -719162
}

/// Day number of 9999-12-31.
pub open spec fn last_day() -> int {
    2932896
}

proof fn lemma_month_forward(mp: int, day: int, leap: bool)
    requires
        0 <= mp <= 11,
        1 <= day <= shifted_month_len(mp, leap),
    ensures
        ({
            let doy = day_of_shifted_year(mp, day);
            &&& (5 * doy + 2) / 153 == mp
            &&& doy - (153 * mp + 2) / 5 + 1 == day
            &&& 0 <= doy <= 365
            &&& (doy <= 364 || (mp == 11 && day == 29))
        }),
{
    if mp == 0 {
    } else if mp == 1 {
    } else if mp == 2 {
    } else if mp == 3 {
    } else if mp == 4 {
    } else if mp == 5 {
    } else if mp == 6 {
    } else if mp == 7 {
    } else if mp == 8 {
    } else if mp == 9 {
    } else if mp == 10 {
    } else {
    }
}

pub proof fn lemma_month_backward(doy: int)
    requires
        0 <= doy <= 365,
    ensures
        ({
            let mp = (5 * doy + 2) / 153;
            let day = doy - (153 * mp + 2) / 5 + 1;
            &&& 0 <= mp <= 11
            &&& 1 <= day <= shifted_month_len(mp, true)
            &&& (doy <= 364 ==> day <= shifted_month_len(mp, false))
            &&& day_of_shifted_year(mp, day) == doy
        }),
{
    let mp = (5 * doy + 2) / 153;
    assert(0 <= mp <= 11);
    if mp == 0 {
    } else if mp == 1 {
    } else if mp == 2 {
    } else if mp == 3 {
    } else if mp == 4 {
    } else if mp == 5 {
    } else if mp == 6 {
    } else if mp == 7 {
    } else if mp == 8 {
    } else if mp == 9 {
    } else if mp == 10 {
    } else {
    }
}

proof fn lemma_year_forward_case(c: int, q: int, r: int, doy: int)
    requires
        0 <= c <= 3,
        0 <= q <= 24,
        0 <= r <= 3,
        0 <= doy < shifted_year_len(100 * c + 4 * q + r),
    ensures
        ({
            let yoe = 100 * c + 4 * q + r;
            &&& year_of_era(year_start(yoe) + doy) == yoe
            &&& 0 <= year_start(yoe) + doy <= 146096
        }),
{
    let yoe = 100 * c + 4 * q + r;
    assert(yoe / 4 == 25 * c + q);
    assert(yoe / 100 == c);
    if c == 0 {
        if r == 0 {
        } else if r == 1 {
        } else if r == 2 {
        } else {
        }
    } else if c == 1 {
        if r == 0 {
        } else if r == 1 {
        } else if r == 2 {
        } else {
        }
    } else if c == 2 {
        if r == 0 {
        } else if r == 1 {
        } else if r == 2 {
        } else {
        }
    } else {
        if r == 0 {
        } else if r == 1 {
        } else if r == 2 {
        } else {
        }
    }
}

proof fn lemma_year_forward(yoe: int, doy: int)
    requires
        0 <= yoe <= 399,
        0 <= doy < shifted_year_len(yoe),
    ensures
        year_of_era(year_start(yoe) + doy) == yoe,
        0 <= year_start(yoe) + doy <= 146096,
{
    let c = yoe / 100;
    let q = (yoe - 100 * c) / 4;
    let r = yoe - 100 * c - 4 * q;
    lemma_year_forward_case(c, q, r, doy);
}

pub proof fn lemma_year_backward(doe: int)
    requires
        0 <= doe <= 146096,
    ensures
        0 <= year_of_era(doe) <= 399,
        0 <= doe - year_start(year_of_era(doe)) < shifted_year_len(year_of_era(doe)),
{
    let c = if doe / 36524 > 3 {
        3
    } else {
        doe / 36524
    };
    let rem1 = doe - 36524 * c;
    let q = if rem1 / 1461 > 24 {
        24
    } else {
        rem1 / 1461
    };
    let rem2 = rem1 - 1461 * q;
    let r = if rem2 / 365 > 3 {
        3
    } else {
        rem2 / 365
    };
    let doy = rem2 - 365 * r;
    let yoe = 100 * c + 4 * q + r;
    assert(yoe / 4 == 25 * c + q);
    assert(yoe / 100 == c);
    assert(doe == year_start(yoe) + doy);
    assert(0 <= doy < shifted_year_len(yoe)) by {
        if c == 3 && q == 24 && r == 3 {
        } else if q == 24 {
        } else {
        }
    }
    lemma_year_forward_case(c, q, r, doy);
}

/// Leap years repeat every 400 years.
proof fn lemma_leap_period(yoe: int, era: int)
    ensures
        spec_is_leap_year(yoe + era * 400) == spec_is_leap_year(yoe),
{
    assert((yoe + era * 400) % 4 == yoe % 4);
    assert((yoe + era * 400) % 100 == yoe % 100);
    assert((yoe + era * 400) % 400 == yoe % 400);
}

proof fn lemma_era_split(x: int, era: int, doe: int)
    requires
        x == era * 146097 + doe,
        0 <= doe < 146097,
    ensures
        x / 146097 == era,
        x - (x / 146097) * 146097 == doe,
{
}

proof fn lemma_year_split(y: int, era: int, yoe: int)
    requires
        y == era * 400 + yoe,
        0 <= yoe < 400,
    ensures
        y / 400 == era,
        y - (y / 400) * 400 == yoe,
{
}

proof fn lemma_year_start_step(yoe: int)
    requires
        0 <= yoe <= 398,
    ensures
        year_start(yoe + 1) == year_start(yoe) + shifted_year_len(yoe),
{
}

/// Shifted year `y + 1` starts `shifted_year_len` days after year `y`.
proof fn lemma_shifted_year_step(y: int)
    ensures
        ({
            let era = y / 400;
            let yoe = y - era * 400;
            let era2 = (y + 1) / 400;
            let yoe2 = (y + 1) - era2 * 400;
            era2 * 146097 + year_start(yoe2) == era * 146097 + year_start(yoe) + shifted_year_len(
                yoe,
            )
        }),
{
    let era = y / 400;
    let yoe = y - era * 400;
    if yoe < 399 {
        lemma_year_split(y + 1, era, yoe + 1);
        lemma_year_start_step(yoe);
    } else {
        lemma_year_split(y + 1, era + 1, 0);
        assert(year_start(399) == 145731);
    }
}

/// The first of the month after `month` is `spec_days_in_month` days after
/// the first of `month`.
pub proof fn lemma_next_month_start(year: int, month: int)
    requires
        1 <= month <= 12,
    ensures
        ({
            let (ny, nm) = if month == 12 {
                (year + 1, 1int)
            } else {
                (year, month + 1)
            };
            days_from_civil(ny, nm, 1) == days_from_civil(year, month, 1) + spec_days_in_month(
                year,
                month,
            )
        }),
{
    if month == 2 {
        lemma_shifted_year_step(year - 1);
        let era = (year - 1) / 400;
        let yoe = (year - 1) - era * 400;
        lemma_leap_period(yoe + 1, era);
        assert(yoe + 1 + era * 400 == year);
    }
}

proof fn lemma_month_monotone(year: int, m1: int, d1: int, m2: int, d2: int)
    requires
        1 <= m1 < m2 <= 12,
        is_civil_date(year, m1, d1),
        1 <= d2,
    ensures
        days_from_civil(year, m1, d1) < days_from_civil(year, m2, d2),
    decreases m2 - m1,
{
    lemma_next_month_start(year, m1);
    if m1 + 1 < m2 {
        lemma_month_monotone(year, m1 + 1, 1, m2, d2);
    }
}

proof fn lemma_last_day_before_next_year(year: int, month: int, day: int)
    requires
        is_civil_date(year, month, day),
    ensures
        days_from_civil(year, month, day) < days_from_civil(year + 1, 1, 1),
{
    lemma_next_month_start(year, 12);
    if month < 12 {
        lemma_month_monotone(year, month, day, 12, 31);
    }
}

proof fn lemma_year_monotone(y1: int, m1: int, d1: int, y2: int, m2: int, d2: int)
    requires
        y1 < y2,
        is_civil_date(y1, m1, d1),
        is_civil_date(y2, m2, d2),
    ensures
        days_from_civil(y1, m1, d1) < days_from_civil(y2, m2, d2),
    decreases y2 - y1,
{
    lemma_last_day_before_next_year(y1, m1, d1);
    if y1 + 1 < y2 {
        lemma_year_monotone(y1 + 1, 1, 1, y2, m2, d2);
    } else if m2 > 1 {
        lemma_month_monotone(y2, 1, 1, m2, d2);
    }
}

/// Earlier in (year, month, day) order means a smaller day number.
pub proof fn lemma_days_from_civil_order(y1: int, m1: int, d1: int, y2: int, m2: int, d2: int)
    requires
        is_civil_date(y1, m1, d1),
        is_civil_date(y2, m2, d2),
    ensures
        (y1 < y2 || (y1 == y2 && m1 < m2) || (y1 == y2 && m1 == m2 && d1 < d2)) <==> days_from_civil(
            y1,
            m1,
            d1,
        ) < days_from_civil(y2, m2, d2),
{
    if y1 < y2 {
        lemma_year_monotone(y1, m1, d1, y2, m2, d2);
    } else if y2 < y1 {
        lemma_year_monotone(y2, m2, d2, y1, m1, d1);
    } else if m1 < m2 {
        lemma_month_monotone(y1, m1, d1, m2, d2);
    } else if m2 < m1 {
        lemma_month_monotone(y1, m2, d2, m1, d1);
    }
}

/// A civil date comes back from its day number.
pub proof fn lemma_civil_round_trip(year: int, month: int, day: int)
    requires
        is_civil_date(year, month, day),
    ensures
        civil_from_days(days_from_civil(year, month, day)) == (year, month, day),
{
    let y = shifted_year(year, month);
    let era = y / 400;
    let yoe = y - era * 400;
    let mp = shifted_month(month);
    let leap = spec_is_leap_year(yoe + 1);
    lemma_leap_period(yoe + 1, era);
    assert(yoe + 1 + era * 400 == y + 1);
    assert(day <= shifted_month_len(mp, leap));
    lemma_month_forward(mp, day, leap);
    let doy = day_of_shifted_year(mp, day);
    assert(doy < shifted_year_len(yoe));
    lemma_year_forward(yoe, doy);
    let doe = year_start(yoe) + doy;
    let n = days_from_civil(year, month, day);
    assert(n + 719468 == era * 146097 + doe);
    lemma_era_split(n + 719468, era, doe);
}

/// Every day number is the day number of the civil date computed for it.
pub proof fn lemma_civil_from_days_inverse(n: int)
    ensures
        ({
            let (year, month, day) = civil_from_days(n);
            &&& is_civil_date(year, month, day)
            &&& days_from_civil(year, month, day) == n
        }),
{
    let shifted = n + 719468;
    let era = shifted / 146097;
    let doe = shifted - era * 146097;
    lemma_year_backward(doe);
    let yoe = year_of_era(doe);
    let doy = doe - year_start(yoe);
    lemma_month_backward(doy);
    let mp = (5 * doy + 2) / 153;
    let day = doy - (153 * mp + 2) / 5 + 1;
    let month = if mp < 10 {
        mp + 3
    } else {
        mp - 9
    };
    let year = yoe + era * 400 + if month <= 2 {
        1int
    } else {
        0int
    };
    lemma_leap_period(yoe + 1, era);
    assert(shifted_month(month) == mp);
    assert(shifted_year(year, month) == era * 400 + yoe);
    lemma_year_split(era * 400 + yoe, era, yoe);
    if month == 2 {
        assert(year == yoe + 1 + era * 400);
        assert(day <= spec_days_in_month(year, month));
    }
    assert(civil_from_days(n) == (year, month, day));
}

/// Distinct civil dates have distinct day numbers.
pub proof fn lemma_days_from_civil_injective(y1: int, m1: int, d1: int, y2: int, m2: int, d2: int)
    requires
        is_civil_date(y1, m1, d1),
        is_civil_date(y2, m2, d2),
        days_from_civil(y1, m1, d1) == days_from_civil(y2, m2, d2),
    ensures
        y1 == y2 && m1 == m2 && d1 == d2,
{
    lemma_civil_round_trip(y1, m1, d1);
    lemma_civil_round_trip(y2, m2, d2);
}

/// The day numbers of years 1 through 9999 are exactly `first_day()..=last_day()`.
pub proof fn lemma_civil_year_range(n: int)
    ensures
        first_day() <= n <= last_day() <==> 1 <= civil_from_days(n).0 <= 9999,
{
    let shifted = n + 719468;
    let era = shifted / 146097;
    let doe = shifted - era * 146097;
    lemma_year_backward(doe);
    let yoe = year_of_era(doe);
    let doy = doe - year_start(yoe);
    lemma_month_backward(doy);
    let mp = (5 * doy + 2) / 153;
    assert(year_start(399) == 145731);
    assert(year_start(0) == 0);
    assert(yoe >= 1 ==> year_start(yoe) >= 365);
    assert(yoe <= 398 ==> year_start(yoe) <= 145731 - 365) by {
        assert(yoe / 4 <= 99);
        assert(yoe / 100 >= 0);
    }
    assert(mp >= 10 <==> doy >= 306);
}

} // verus!
