//! Calendar conversion for file times.
//!
//! The platform stamps files with ticks: milliseconds since the start of
//! the year 1601.  [`file_time_to_system_time`] decomposes a tick count
//! into a calendar date and time of day.  Its contract is the inverse
//! direction: the returned date is well-formed and recomposes, via
//! [`ticks_of`], to exactly the input — so there is only one answer it can
//! give.

use vstd::prelude::*;

use vstd::arithmetic::div_mod::lemma_fundamental_div_mod;

use crate::co::ERROR;
use crate::co::SysResult;
use crate::structs::SYSTEMTIME;

verus! {

/// Milliseconds per day.
pub const MS_PER_DAY: u64 = 86_400_000;

/// Whether `y` is a leap year.
pub open spec fn is_leap(y: int) -> bool {
    (y % 4 == 0 && y % 100 != 0) || y % 400 == 0
}

/// Days of the year `y`.
pub open spec fn days_in_year(y: int) -> int {
    if is_leap(y) {
        366
    } else {
        365
    }
}

/// Days of month `m` of the year `y`.
pub open spec fn days_in_month(y: int, m: int) -> int {
    if m == 2 {
        if is_leap(y) {
            29
        } else {
            28
        }
    } else if m == 4 || m == 6 || m == 9 || m == 11 {
        30
    } else {
        31
    }
}

/// Days from the epoch to the start of the year `y`.
pub open spec fn days_before_year(y: int) -> int
    decreases y,
{
    if y <= 1601 {
        0
    } else {
        days_before_year(y - 1) + days_in_year(y - 1)
    }
}

/// Days from the start of the year `y` to the start of its month `m`.
pub open spec fn days_before_month(y: int, m: int) -> int
    decreases m,
{
    if m <= 1 {
        0
    } else {
        days_before_month(y, m - 1) + days_in_month(y, m - 1)
    }
}

/// The months of a year add up to the year.
proof fn lemma_months_fill_year(y: int)
    ensures
        days_before_month(y, 13) == days_in_year(y),
{
    reveal_with_fuel(days_before_month, 13);
}

/// Later years lie at or after earlier ones.
proof fn lemma_days_before_year_mono(a: int, b: int)
    requires
        a <= b,
    ensures
        days_before_year(a) <= days_before_year(b),
    decreases b - a,
{
    if a < b {
        lemma_days_before_year_mono(a, b - 1);
    }
}

/// Days from the epoch to the date `st` names.
pub open spec fn date_days(st: SYSTEMTIME) -> int {
    days_before_year(st.wYear as int) + days_before_month(st.wYear as int, st.wMonth as int)
        + st.wDay - 1
}

/// Ticks from the epoch to the instant `st` names.
pub open spec fn ticks_of(st: SYSTEMTIME) -> int {
    date_days(st) * MS_PER_DAY + st.wHour * 3_600_000 + st.wMinute * 60_000 + st.wSecond * 1_000
        + st.wMilliseconds
}

/// A well-formed calendar instant: every field is in range, the day fits
/// its month, and the day of the week agrees with the date.
pub open spec fn st_wf(st: SYSTEMTIME) -> bool {
    &&& 1601 <= st.wYear <= 30827
    &&& 1 <= st.wMonth <= 12
    &&& 1 <= st.wDay <= days_in_month(st.wYear as int, st.wMonth as int)
    &&& st.wHour < 24
    &&& st.wMinute < 60
    &&& st.wSecond < 60
    &&& st.wMilliseconds < 1000
    &&& st.wDayOfWeek == (date_days(st) + 1) % 7
}

/// The first tick the calendar no longer covers.
pub open spec fn max_ticks() -> int {
    days_before_year(30828) * MS_PER_DAY
}

/// Days of the year `y`.
fn days_in_year_exec(y: u64) -> (d: u64)
    ensures
        d == days_in_year(y as int),
{
    if (y % 4 == 0 && y % 100 != 0) || y % 400 == 0 {
        366
    } else {
        365
    }
}

/// Days of month `m` of the year `y`.
fn days_in_month_exec(y: u64, m: u64) -> (d: u64)
    ensures
        d == days_in_month(y as int, m as int),
{
    if m == 2 {
        if (y % 4 == 0 && y % 100 != 0) || y % 400 == 0 {
            29
        } else {
            28
        }
    } else if m == 4 || m == 6 || m == 9 || m == 11 {
        30
    } else {
        31
    }
}

/// Decomposes a tick count into the calendar instant it names.  Succeeds
/// exactly on the ticks the calendar covers; the result is well-formed and
/// recomposes to exactly the input.
pub fn file_time_to_system_time(ticks: u64) -> (r: SysResult<SYSTEMTIME>)
    ensures
        ticks < max_ticks() ==> (r matches Ok(st) && st_wf(st) && ticks_of(st) == ticks),
        ticks >= max_ticks() ==> r == Err::<SYSTEMTIME, ERROR>(ERROR(87)),
{
    let days: u64 = ticks / MS_PER_DAY;
    let ms: u64 = ticks % MS_PER_DAY;
    proof {
        lemma_fundamental_div_mod(ticks as int, MS_PER_DAY as int);
    }
    let hour: u64 = ms / 3_600_000;
    let ms2: u64 = ms % 3_600_000;
    proof {
        lemma_fundamental_div_mod(ms as int, 3_600_000);
    }
    let minute: u64 = ms2 / 60_000;
    let ms3: u64 = ms2 % 60_000;
    proof {
        lemma_fundamental_div_mod(ms2 as int, 60_000);
    }
    let second: u64 = ms3 / 1_000;
    let milli: u64 = ms3 % 1_000;
    proof {
        lemma_fundamental_div_mod(ms3 as int, 1_000);
    }
    let dow: u64 = ((days % 7) + 1) % 7;
    proof {
        lemma_fundamental_div_mod(days as int, 7);
        assert(dow == (days + 1) % 7) by (nonlinear_arith)
            requires
                dow == ((days % 7) + 1) % 7,
                days % 7 == days - 7 * (days / 7),
                0 <= days % 7 < 7,
        ;
    }
    let mut y: u64 = 1601;
    let mut rem: u64 = days;
    while y < 30828 && rem >= days_in_year_exec(y)
        invariant
            1601 <= y <= 30828,
            days == days_before_year(y as int) + rem,
        decreases 30828 - y,
    {
        rem = rem - days_in_year_exec(y);
        y = y + 1;
    }
    if y >= 30828 {
        proof {
            assert(days >= days_before_year(30828));
            assert(ticks >= days_before_year(30828) * MS_PER_DAY) by (nonlinear_arith)
                requires
                    days >= days_before_year(30828),
                    ticks == MS_PER_DAY * days + ms,
                    ms >= 0,
                    MS_PER_DAY == 86_400_000,
            ;
        }
        return Err(ERROR::invalid_parameter());
    }
    proof {
        assert(rem < days_in_year(y as int));
        lemma_days_before_year_mono(y as int + 1, 30828);
        assert(days_before_year(y as int + 1) == days_before_year(y as int) + days_in_year(
            y as int,
        ));
        assert(days < days_before_year(30828));
        assert(ticks < days_before_year(30828) * MS_PER_DAY) by (nonlinear_arith)
            requires
                days < days_before_year(30828),
                ticks == MS_PER_DAY * days + ms,
                0 <= ms < MS_PER_DAY,
                MS_PER_DAY == 86_400_000,
        ;
    }
    let mut m: u64 = 1;
    while rem >= days_in_month_exec(y, m)
        invariant
            1 <= m <= 12,
            1601 <= y <= 30827,
            days == days_before_year(y as int) + days_before_month(y as int, m as int) + rem,
            days_before_month(y as int, m as int) + rem < days_in_year(y as int),
        decreases 12 - m,
    {
        proof {
            if m == 12 {
                lemma_months_fill_year(y as int);
                assert(false);
            }
        }
        rem = rem - days_in_month_exec(y, m);
        m = m + 1;
    }
    let day: u64 = rem + 1;
    let st = SYSTEMTIME {
        wYear: y as u16,
        wMonth: m as u16,
        wDayOfWeek: dow as u16,
        wDay: day as u16,
        wHour: hour as u16,
        wMinute: minute as u16,
        wSecond: second as u16,
        wMilliseconds: milli as u16,
    };
    proof {
        assert(hour < 24 && ms == hour * 3_600_000 + ms2) by (nonlinear_arith)
            requires
                hour == ms / 3_600_000,
                ms2 == ms % 3_600_000,
                ms == 3_600_000 * (ms / 3_600_000) + ms % 3_600_000,
                0 <= ms % 3_600_000 < 3_600_000,
                0 <= ms < 86_400_000,
        ;
        assert(minute < 60 && ms2 == minute * 60_000 + ms3) by (nonlinear_arith)
            requires
                minute == ms2 / 60_000,
                ms3 == ms2 % 60_000,
                ms2 == 60_000 * (ms2 / 60_000) + ms2 % 60_000,
                0 <= ms2 % 60_000 < 60_000,
                0 <= ms2 < 3_600_000,
        ;
        assert(second < 60 && milli < 1000 && ms3 == second * 1_000 + milli) by (nonlinear_arith)
            requires
                second == ms3 / 1_000,
                milli == ms3 % 1_000,
                ms3 == 1_000 * (ms3 / 1_000) + ms3 % 1_000,
                0 <= ms3 % 1_000 < 1_000,
                0 <= ms3 < 60_000,
        ;
        assert(date_days(st) == days);
        assert(ticks_of(st) == ticks) by (nonlinear_arith)
            requires
                date_days(st) == days,
                ticks == MS_PER_DAY * days + ms,
                ms == st.wHour * 3_600_000 + ms2,
                ms2 == st.wMinute * 60_000 + ms3,
                ms3 == st.wSecond * 1_000 + st.wMilliseconds,
                MS_PER_DAY == 86_400_000,
                ticks_of(st) == date_days(st) * MS_PER_DAY + st.wHour * 3_600_000 + st.wMinute
                    * 60_000 + st.wSecond * 1_000 + st.wMilliseconds,
        ;
        assert(st_wf(st));
    }
    Ok(st)
}

} // verus!
