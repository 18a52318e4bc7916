//! Dates of the Gregorian calendar, and how the consoles show a point in time.

use vstd::prelude::*;
use crate::numeral::{padded, padded_of, parse_i64, parsed};

verus! {

/// The year has a 29th of February.
pub open spec fn is_leap(y: int) -> bool {
    y % 4 == 0 && (y % 100 != 0 || y % 400 == 0)
}

/// How many days the month has.
pub open spec fn month_len(y: int, m: int) -> int {
    if m == 2 {
        if is_leap(y) {
            29
        } else {
            28
        }
    } else if m == 4 || m == 6 || m == 9 || m == 11 {
        30
    } else {
        31
    }
}

/// The date stands in the calendar.
pub open spec fn is_date(y: int, m: int, d: int) -> bool {
    1 <= m <= 12 && 1 <= d <= month_len(y, m)
}

/// How many days of the year lie before the month.
pub open spec fn days_before_month(y: int, m: int) -> int
    decreases m,
{
    if m <= 1 {
        0
    } else {
        days_before_month(y, m - 1) + month_len(y, m - 1)
    }
}

/// How many leap days lie before the year, counted from year 1.
pub open spec fn leap_days_before(y: int) -> int {
    (y - 1) / 4 - (y - 1) / 100 + (y - 1) / 400
}

/// How many days the date lies after 1970-01-01.
pub open spec fn day_number(y: int, m: int, d: int) -> int {
    365 * (y - 1970) + leap_days_before(y) - leap_days_before(1970) + days_before_month(y, m) + d
        - 1
}

proof fn lemma_days_before_month(y: int, m: int)
    requires
        1 <= m <= 13,
    ensures
        days_before_month(y, m) == (if m == 1 {
            0
        } else if m == 2 {
            31
        } else {
            (if is_leap(y) {
                60int
            } else {
                59int
            }) + (153 * (m - 3) + 2) / 5
        }),
{
    reveal_with_fuel(days_before_month, 14);
}

/// The day of March-based years within an era of four hundred years.
proof fn lemma_year_of_era(doe: int)
    requires
        0 <= doe < 146_097,
    ensures
        ({
            let yoe = (doe - doe / 1460 + doe / 36_524 - doe / 146_096) / 365;
            let doy = doe - (365 * yoe + yoe / 4 - yoe / 100);
            &&& 0 <= yoe <= 399
            &&& 0 <= doy <= 365
            &&& doy == 365 ==> is_leap(yoe + 1)
        }),
{
    let h = if doe / 36_524 >= 3 {
        3
    } else {
        doe / 36_524
    };
    let r = doe - 36_524 * h;
    assert(0 <= r <= 36_524);
    assert(h < 3 ==> r < 36_524);
    let k = r / 1461;
    let t = r - 1461 * k;
    assert(0 <= k <= 24);
    assert(0 <= t <= 1460);
    let j = if t / 365 >= 3 {
        3
    } else {
        t / 365
    };
    let doy = t - 365 * j;
    assert(0 <= doy <= 365);
    assert(doy == 365 ==> j == 3);
    let y = 100 * h + 4 * k + j;
    assert(doe == 36_524 * h + 1461 * k + 365 * j + doy);
    // the rough year count is short by one day in the last days of a leap cycle
    let w = 24 * h + k + 365 * j + doy;
    let delta = if w >= 1460 {
        1int
    } else {
        0int
    };
    assert(doe == 1460 * (25 * h + k) + w);
    assert(0 <= w < 2920);
    assert(doe / 1460 == 25 * h + k + delta);
    assert(doe / 36_524 - doe / 146_096 == h);
    assert(doe - doe / 1460 + doe / 36_524 - doe / 146_096 == 365 * y + doy - delta);
    assert(0 <= doy - delta < 365);
    assert((365 * y + doy - delta) / 365 == y);
    assert(y / 4 == 25 * h + k);
    assert(y / 100 == h);
    if doy == 365 {
        assert(t == 1460);
        assert((y + 1) == 100 * h + 4 * (k + 1));
        if k == 24 {
            assert(r == 36_524);
            assert(h == 3);
            assert(y + 1 == 400);
        } else {
            assert((y + 1) % 100 == 4 * (k + 1));
        }
    }
}

/// The date of a day, by counting years from the first of March.
pub open spec fn computed(z: int) -> (int, int, int) {
    let n = z + 719_468;
    let era = n / 146_097;
    let doe = n % 146_097;
    let yoe = (doe - doe / 1460 + doe / 36_524 - doe / 146_096) / 365;
    let y = yoe + era * 400;
    let doy = doe - (365 * yoe + yoe / 4 - yoe / 100);
    let mp = (5 * doy + 2) / 153;
    let d = doy - (153 * mp + 2) / 5 + 1;
    let m = if mp < 10 {
        mp + 3
    } else {
        mp - 9
    };
    (if m <= 2 {
        y + 1
    } else {
        y
    }, m, d)
}

proof fn lemma_quotient_step_4(y: int)
    ensures
        y / 4 == (y - 1) / 4 + if y % 4 == 0 {
            1int
        } else {
            0int
        },
{
}

proof fn lemma_quotient_step_100(y: int)
    ensures
        y / 100 == (y - 1) / 100 + if y % 100 == 0 {
            1int
        } else {
            0int
        },
{
}

proof fn lemma_quotient_step_400(y: int)
    ensures
        y / 400 == (y - 1) / 400 + if y % 400 == 0 {
            1int
        } else {
            0int
        },
{
}

proof fn lemma_centuries(y: int)
    ensures
        y % 400 == 0 ==> y % 100 == 0,
        y % 100 == 0 ==> y % 4 == 0,
{
    let a = y / 400;
    let b = y / 100;
    if y % 400 == 0 {
        assert(y == 100 * (4 * a));
    }
    if y % 100 == 0 {
        assert(y == 4 * (25 * b));
    }
}

proof fn lemma_leaps(y: int)
    ensures
        leap_days_before(y + 1) == leap_days_before(y) + if is_leap(y) {
            1int
        } else {
            0int
        },
        leap_days_before(y + 1) == y / 4 - y / 100 + y / 400,
{
    lemma_quotient_step_4(y);
    lemma_quotient_step_100(y);
    lemma_quotient_step_400(y);
    lemma_centuries(y);
}

proof fn lemma_eras(yoe: int, era: int)
    requires
        0 <= yoe <= 399,
    ensures
        (yoe + era * 400) / 4 == yoe / 4 + 100 * era,
        (yoe + era * 400) / 100 == yoe / 100 + 4 * era,
        (yoe + era * 400) / 400 == era,
        is_leap(yoe + era * 400 + 1) == is_leap(yoe + 1),
{
    let y = yoe + era * 400;
    assert(y / 4 == yoe / 4 + 100 * era);
    assert(y / 100 == yoe / 100 + 4 * era);
    assert(y / 400 == era);
    assert((y + 1) % 4 == (yoe + 1) % 4);
    assert((y + 1) % 100 == (yoe + 1) % 100);
    assert((y + 1) % 400 == (yoe + 1) % 400);
}

/// The month and day of a March-based day of the year.
proof fn lemma_month(doy: int)
    requires
        0 <= doy <= 365,
    ensures
        ({
            let mp = (5 * doy + 2) / 153;
            let d = doy - (153 * mp + 2) / 5 + 1;
            &&& 0 <= mp <= 11
            &&& 1 <= d <= 31
            &&& (mp == 1 || mp == 3 || mp == 6 || mp == 8) ==> d <= 30
            &&& mp == 11 ==> d <= 29
            &&& mp == 11 && d == 29 ==> doy == 365
            &&& mp == 10 ==> (153 * mp + 2) / 5 == 306
            &&& mp == 11 ==> (153 * mp + 2) / 5 == 337
        }),
{
}

/// Every day has a date.
pub proof fn every_day_has_a_date(z: int)
    ensures
        is_date(computed(z).0, computed(z).1, computed(z).2),
        day_number(computed(z).0, computed(z).1, computed(z).2) == z,
{
    let n = z + 719_468;
    let era = n / 146_097;
    let doe = n % 146_097;
    lemma_year_of_era(doe);
    let yoe = (doe - doe / 1460 + doe / 36_524 - doe / 146_096) / 365;
    let y = yoe + era * 400;
    let doy = doe - (365 * yoe + yoe / 4 - yoe / 100);
    let mp = (5 * doy + 2) / 153;
    let d = doy - (153 * mp + 2) / 5 + 1;
    let (yr, m, dd) = computed(z);
    lemma_eras(yoe, era);
    lemma_month(doy);
    assert(n == 146_097 * era + doe);
    lemma_leaps(y);
    lemma_days_before_month(yr, m);
    assert(leap_days_before(1970) == 477);
    if mp < 10 {
        assert(yr == y && m == mp + 3);
        assert(leap_days_before(y) + days_before_month(y, m) == y / 4 - y / 100 + y / 400 + 59 + (153
            * mp + 2) / 5);
    } else {
        assert(yr == y + 1 && m == mp - 9);
    }
}

proof fn lemma_years_grow(a: int, b: int)
    requires
        a <= b,
    ensures
        365 * a + leap_days_before(a) <= 365 * b + leap_days_before(b),
    decreases b - a,
{
    if a < b {
        lemma_years_grow(a, b - 1);
        lemma_leaps(b - 1);
    }
}

proof fn lemma_months_grow(y: int, a: int, b: int)
    requires
        1 <= a <= b,
    ensures
        days_before_month(y, a) <= days_before_month(y, b),
    decreases b - a,
{
    if a < b {
        lemma_months_grow(y, a, b - 1);
    }
}

proof fn lemma_earlier_date(y: int, m: int, d: int, y2: int, m2: int, d2: int)
    requires
        is_date(y, m, d),
        is_date(y2, m2, d2),
        y < y2 || (y == y2 && m < m2) || (y == y2 && m == m2 && d < d2),
    ensures
        day_number(y, m, d) < day_number(y2, m2, d2),
{
    if y < y2 {
        lemma_years_grow(y + 1, y2);
        lemma_leaps(y);
        lemma_months_grow(y, m + 1, 13);
        lemma_days_before_month(y, 13);
        lemma_months_grow(y2, 1, m2);
    } else if m < m2 {
        lemma_months_grow(y, m + 1, m2);
    }
}

/// A later date has a greater day number, so no two dates are one day.
pub proof fn dates_are_ordered_by_day(y: int, m: int, d: int, y2: int, m2: int, d2: int)
    requires
        is_date(y, m, d),
        is_date(y2, m2, d2),
    ensures
        day_number(y, m, d) < day_number(y2, m2, d2) <==> y < y2 || (y == y2 && m < m2) || (y == y2
            && m == m2 && d < d2),
        day_number(y, m, d) == day_number(y2, m2, d2) <==> y == y2 && m == m2 && d == d2,
{
    if y < y2 || (y == y2 && m < m2) || (y == y2 && m == m2 && d < d2) {
        lemma_earlier_date(y, m, d, y2, m2, d2);
    } else if y != y2 || m != m2 || d != d2 {
        lemma_earlier_date(y2, m2, d2, y, m, d);
    }
}

/// The date is that of the day.
pub open spec fn is_date_of(t: (int, int, int), z: int) -> bool {
    is_date(t.0, t.1, t.2) && day_number(t.0, t.1, t.2) == z
}

/// The date of the day `z` days after 1970-01-01: year, month and day.
pub open spec fn civil(z: int) -> (int, int, int) {
    choose|t: (int, int, int)| is_date_of(t, z)
}

/// The date of a day is what counting gives.
pub proof fn civil_is_computed(z: int)
    ensures
        civil(z) == computed(z),
        is_date_of(civil(z), z),
{
    every_day_has_a_date(z);
    assert(is_date_of(computed(z), z));
    let a = civil(z);
    let b = computed(z);
    dates_are_ordered_by_day(a.0, a.1, a.2, b.0, b.1, b.2);
}

/// The quotient rounded down.
pub fn floor_div(n: i64, d: i64) -> (r: i64)
    requires
        d > 0,
    ensures
        r == n as int / d as int,
{
    if n >= 0 {
        n / d
    } else {
        let m: i64 = -(n + 1);
        let q: i64 = m / d;
        proof {
            assert(n as int == -(m as int) - 1);
            lemma_floor_negative(m as int, d as int);
        }
        -q - 1
    }
}

proof fn lemma_floor_negative(m: int, d: int)
    requires
        m >= 0,
        d > 0,
    ensures
        (-m - 1) / d == -(m / d) - 1,
{
    let q = m / d;
    let r = m % d;
    vstd::arithmetic::div_mod::lemma_fundamental_div_mod(m, d);
    vstd::arithmetic::div_mod::lemma_mod_bound(m, d);
    assert(-m - 1 == (-q - 1) * d + (d - r - 1)) by (nonlinear_arith)
        requires
            m == d * q + r,
    ;
    vstd::arithmetic::div_mod::lemma_fundamental_div_mod_converse(
        -m - 1,
        d,
        -q - 1,
        d - r - 1,
    );
}

/// The remainder of the division rounded down.
pub fn floor_mod(n: i64, d: i64) -> (r: i64)
    requires
        d > 0,
    ensures
        r == n as int % d as int,
        0 <= r < d,
{
    let q: i64 = floor_div(n, d);
    proof {
        vstd::arithmetic::div_mod::lemma_fundamental_div_mod(n as int, d as int);
        vstd::arithmetic::div_mod::lemma_mod_bound(n as int, d as int);
        assert(d as int * q as int == q as int * d as int) by (nonlinear_arith);
        assert(q as int * d as int >= i64::MIN - d as int) by (nonlinear_arith)
            requires
                n as int == d as int * q as int + n as int % d as int,
                0 <= n as int % d as int,
                n as int % (d as int) < d as int,
                n >= i64::MIN,
        ;
    }
    (n as i128 - q as i128 * d as i128) as i64
}

/// Days since 1970-01-01 → (year, month, day). Howard Hinnant's algorithm.
pub fn civil_from_days(z: i64) -> (r: (i64, u32, u32))
    requires
        z + 719_468 <= i64::MAX,
    ensures
        (r.0 as int, r.1 as int, r.2 as int) == civil(z as int),
{
    proof {
        civil_is_computed(z as int);
        lemma_year_of_era((z + 719_468) % 146_097);
    }
    let n: i64 = z + 719_468;
    let era: i64 = floor_div(n, 146_097);
    let doe: i64 = floor_mod(n, 146_097);
    let yoe: i64 = (doe - doe / 1460 + doe / 36_524 - doe / 146_096) / 365;
    let y: i64 = yoe + era * 400;
    let doy: i64 = doe - (365 * yoe + yoe / 4 - yoe / 100);
    proof {
        lemma_month(doy as int);
    }
    let mp: i64 = (5 * doy + 2) / 153;
    let d: u32 = (doy - (153 * mp + 2) / 5 + 1) as u32;
    let m: u32 = (if mp < 10 {
        mp + 3
    } else {
        mp - 9
    }) as u32;
    (if m <= 2 {
        y + 1
    } else {
        y
    }, m, d)
}

/// A point in time, given as milliseconds since 1970-01-01, as `YYYY-MM-DD HH:MM` UTC.
pub open spec fn minute_text(ms: int) -> Seq<char> {
    let secs = ms / 1000;
    let (y, m, d) = civil(secs / 86_400);
    let rem = secs % 86_400;
    padded(y, 4) + "-"@ + padded(m, 2) + "-"@ + padded(d, 2) + " "@ + padded(rem / 3600, 2) + ":"@
        + padded((rem % 3600) / 60, 2)
}

/// What stands for a point in time that may be missing.
pub open spec fn ms_text(ms: Option<String>) -> Seq<char> {
    match ms {
        Some(s) => match parsed(s@) {
            Some(n) => minute_text(n),
            None => "—"@,
        },
        None => "—"@,
    }
}

/// Epoch-millis string → `YYYY-MM-DD HH:MM` UTC, or an em dash.
pub fn fmt_ms(ms: &Option<String>) -> (r: String)
    ensures
        r@ == ms_text(*ms),
{
    let n: i64 = match ms {
        Some(s) => match parse_i64(s.as_str()) {
            Some(n) => n,
            None => {
                return "—".to_owned();
            },
        },
        None => {
            return "—".to_owned();
        },
    };
    let secs: i64 = floor_div(n, 1000);
    let days: i64 = floor_div(secs, 86_400);
    let rem: i64 = floor_mod(secs, 86_400);
    let (y, m, d) = civil_from_days(days);
    let mut s = padded_of(y, 4);
    s.append("-");
    s.append(padded_of(m as i64, 2).as_str());
    s.append("-");
    s.append(padded_of(d as i64, 2).as_str());
    s.append(" ");
    s.append(padded_of(rem / 3600, 2).as_str());
    s.append(":");
    s.append(padded_of((rem % 3600) / 60, 2).as_str());
    s
}

/// Days are counted from the first of January 1970, one after the other, through the months and the
/// years; a year has a leap day every fourth year, but for the centuries that four hundred does not
/// divide.
pub proof fn days_are_counted_on(y: int, m: int, d: int)
    requires
        is_date(y, m, d),
    ensures
        day_number(1970, 1, 1) == 0,
        d < month_len(y, m) ==> day_number(y, m, d + 1) == day_number(y, m, d) + 1,
        m < 12 ==> day_number(y, m + 1, 1) == day_number(y, m, month_len(y, m)) + 1,
        day_number(y + 1, 1, 1) == day_number(y, 12, 31) + 1,
        month_len(y, 2) == (if y % 400 == 0 || (y % 4 == 0 && y % 100 != 0) {
            29int
        } else {
            28
        }),
        month_len(y, 1) == 31 && month_len(y, 3) == 31 && month_len(y, 4) == 30 && month_len(y, 5)
            == 31 && month_len(y, 6) == 30 && month_len(y, 7) == 31 && month_len(y, 8) == 31
            && month_len(y, 9) == 30 && month_len(y, 10) == 31 && month_len(y, 11) == 30
            && month_len(y, 12) == 31,
{
    reveal_with_fuel(days_before_month, 13);
}

/// A time reads as the date and the minute that it falls into.
pub proof fn a_time_reads_as_its_date_and_minute(
    y: int,
    m: int,
    d: int,
    hour: int,
    minute: int,
    rest: int,
)
    requires
        is_date(y, m, d),
        0 <= hour < 24,
        0 <= minute < 60,
        0 <= rest < 60_000,
    ensures
        minute_text(
            day_number(y, m, d) * 86_400_000 + hour * 3_600_000 + minute * 60_000 + rest,
        ) == padded(y, 4) + seq!['-'] + padded(m, 2) + seq!['-'] + padded(d, 2) + seq![' ']
            + padded(hour, 2) + seq![':'] + padded(minute, 2),
{
    reveal_strlit("-");
    reveal_strlit(" ");
    reveal_strlit(":");
    assert("-"@ =~= seq!['-']);
    assert(" "@ =~= seq![' ']);
    assert(":"@ =~= seq![':']);
    let z = day_number(y, m, d);
    let ms = z * 86_400_000 + hour * 3_600_000 + minute * 60_000 + rest;
    let secs = ms / 1000;
    let inner = hour * 3600 + minute * 60 + rest / 1000;
    assert(secs == z * 86_400 + inner);
    assert(secs / 86_400 == z);
    assert(secs % 86_400 == inner);
    civil_is_computed(z);
    let (a, b, c) = civil(z);
    dates_are_ordered_by_day(a, b, c, y, m, d);
    assert(inner / 3600 == hour);
    assert((inner % 3600) / 60 == minute);
}

/// Without a time, or with one that is no number, there is a dash.
pub proof fn no_time_reads_as_a_dash(s: String)
    ensures
        ms_text(None) == seq!['\u{2014}'],
        parsed(s@) is None ==> ms_text(Some(s)) == seq!['\u{2014}'],
        parsed(s@) matches Some(n) ==> ms_text(Some(s)) == minute_text(n),
{
    reveal_strlit("—");
    assert("—"@ =~= seq!['\u{2014}']);
}

} // verus!
