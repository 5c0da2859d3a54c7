//! Proleptic Gregorian calendar arithmetic: between a wall-clock value
//! (calendar date plus time of day, no timezone) and a count of seconds
//! since 1970-01-01T00:00:00 UTC, in both directions, under a fixed UTC
//! offset. Years run from 0000 through 9999, the range a four-digit year
//! can express.

use vstd::prelude::*;

verus! {

/// Seconds a UTC offset can hold: strictly less than one day either way.
pub const MAX_OFFSET_SECS: i32 = 86400;

/// A wall-clock value: a calendar date and a time of day to minute
/// precision, with no attached timezone. An offset is needed to turn it
/// into an absolute instant.
#[derive(Clone, Copy, Debug, PartialEq, Eq, Structural)]
pub struct WallClock {
    pub year: u16,
    pub month: u8,
    pub day: u8,
    pub hour: u8,
    pub minute: u8,
}

/// Gregorian leap-year rule.
pub open spec fn is_leap_year(y: int) -> bool {
    y % 4 == 0 && (y % 100 != 0 || y % 400 == 0)
}

/// Days in month `m` (1-based) of year `y`.
pub open spec fn days_in_month(y: int, m: int) -> int {
    if m == 2 {
        if is_leap_year(y) {
            29
        } else {
            28
        }
    } else if m == 4 || m == 6 || m == 9 || m == 11 {
        30
    } else {
        31
    }
}

/// Days in year `y`.
pub open spec fn year_length(y: int) -> int {
    if is_leap_year(y) {
        366
    } else {
        365
    }
}

/// Days from 1970-01-01 to `y`-01-01; negative for years before 1970.
pub open spec fn days_to_year(y: int) -> int
    decreases (if y < 1970 { 1970 - y } else { y - 1970 }),
{
    if y == 1970 {
        0
    } else if y > 1970 {
        days_to_year(y - 1) + year_length(y - 1)
    } else {
        days_to_year(y + 1) - year_length(y)
    }
}

/// Days from `y`-01-01 to the first of month `m` of year `y` (so 0 for
/// January, and the whole year for `m == 13`).
pub open spec fn days_to_month(y: int, m: int) -> int
    decreases m,
{
    if m <= 1 {
        0
    } else {
        days_to_month(y, m - 1) + days_in_month(y, m - 1)
    }
}

/// Days from 1970-01-01 to the calendar date `y`-`m`-`d`.
pub open spec fn days_from_civil(y: int, m: int, d: int) -> int {
    days_to_year(y) + days_to_month(y, m) + d - 1
}

impl WallClock {
    /// All fields in range: a date that exists in the calendar and a time
    /// of day.
    pub open spec fn valid(self) -> bool {
        &&& self.year <= 9999
        &&& 1 <= self.month <= 12
        &&& 1 <= self.day <= days_in_month(self.year as int, self.month as int)
        &&& self.hour <= 23
        &&& self.minute <= 59
    }
}

/// The absolute instant, in seconds since the epoch, of wall-clock value
/// `w` read in a timezone `off` seconds east of UTC.
pub open spec fn wall_to_epoch(w: WallClock, off: int) -> int {
    days_from_civil(w.year as int, w.month as int, w.day as int) * 86400 + w.hour * 3600
        + w.minute * 60 - off
}

/// Strict lexicographic order on wall-clock values: the earlier of two
/// distinct calendar values.
pub open spec fn wall_lt(w1: WallClock, w2: WallClock) -> bool {
    ||| w1.year < w2.year
    ||| (w1.year == w2.year && w1.month < w2.month)
    ||| (w1.year == w2.year && w1.month == w2.month && w1.day < w2.day)
    ||| (w1.year == w2.year && w1.month == w2.month && w1.day == w2.day && w1.hour < w2.hour)
    ||| (w1.year == w2.year && w1.month == w2.month && w1.day == w2.day && w1.hour == w2.hour
        && w1.minute < w2.minute)
}

/// Stepping one year forward adds that year's length, on either side of
/// 1970.
proof fn lemma_days_to_year_step(y: int)
    ensures
        days_to_year(y + 1) == days_to_year(y) + year_length(y),
{
}

/// Years accumulate between 365 and 366 days each.
pub proof fn lemma_days_to_year_bounds(y1: int, y2: int)
    requires
        y1 <= y2,
    ensures
        days_to_year(y1) + 365 * (y2 - y1) <= days_to_year(y2),
        days_to_year(y2) <= days_to_year(y1) + 366 * (y2 - y1),
    decreases y2 - y1,
{
    if y1 < y2 {
        lemma_days_to_year_bounds(y1, y2 - 1);
        lemma_days_to_year_step(y2 - 1);
    }
}

/// Every month is between 28 and 31 days long.
proof fn lemma_days_in_month_bounds(y: int, m: int)
    requires
        1 <= m <= 12,
    ensures
        28 <= days_in_month(y, m) <= 31,
{
}

/// Months accumulate between 28 and 31 days each.
proof fn lemma_days_to_month_bounds(y: int, m1: int, m2: int)
    requires
        1 <= m1 <= m2 <= 13,
    ensures
        days_to_month(y, m1) + 28 * (m2 - m1) <= days_to_month(y, m2),
        days_to_month(y, m2) <= days_to_month(y, m1) + 31 * (m2 - m1),
    decreases m2 - m1,
{
    if m1 < m2 {
        lemma_days_to_month_bounds(y, m1, m2 - 1);
        lemma_days_in_month_bounds(y, m2 - 1);
    }
}

/// The twelve months of a year sum to the year's length.
proof fn lemma_days_to_month_full_year(y: int)
    ensures
        days_to_month(y, 13) == year_length(y),
{
    reveal_with_fuel(days_to_month, 13);
}

/// A valid date of year `y` lies between `y`-01-01 inclusive and
/// (`y`+1)-01-01 exclusive, counted in days from the epoch.
proof fn lemma_civil_day_bounds(w: WallClock)
    requires
        w.valid(),
    ensures
        days_to_year(w.year as int) <= days_from_civil(
            w.year as int,
            w.month as int,
            w.day as int,
        ),
        days_from_civil(w.year as int, w.month as int, w.day as int) < days_to_year(
            w.year as int + 1,
        ),
{
    let y = w.year as int;
    let m = w.month as int;
    lemma_days_to_month_bounds(y, 1, m);
    lemma_days_to_month_bounds(y, m + 1, 13);
    lemma_days_to_month_full_year(y);
    lemma_days_to_year_step(y);
}

/// The earlier of two distinct valid calendar dates stands on a strictly
/// earlier day.
proof fn lemma_date_strictly_monotonic(w1: WallClock, w2: WallClock)
    requires
        w1.valid(),
        w2.valid(),
        w1.year < w2.year || (w1.year == w2.year && w1.month < w2.month) || (w1.year == w2.year
            && w1.month == w2.month && w1.day < w2.day),
    ensures
        days_from_civil(w1.year as int, w1.month as int, w1.day as int) + 1 <= days_from_civil(
            w2.year as int,
            w2.month as int,
            w2.day as int,
        ),
{
    let y1 = w1.year as int;
    let y2 = w2.year as int;
    let m1 = w1.month as int;
    let m2 = w2.month as int;
    if y1 < y2 {
        lemma_civil_day_bounds(w1);
        lemma_civil_day_bounds(w2);
        lemma_days_to_year_bounds(y1 + 1, y2);
    } else if m1 < m2 {
        lemma_days_to_month_bounds(y1, m1 + 1, m2);
        lemma_days_to_month_bounds(y1, 1, m1);
    }
}

/// Under one offset, the earlier of two distinct valid wall-clock values
/// derives a strictly smaller epoch count; distinct minutes lie at least
/// sixty seconds apart.
pub proof fn lemma_epoch_strictly_monotonic(w1: WallClock, w2: WallClock, off: int)
    requires
        w1.valid(),
        w2.valid(),
        wall_lt(w1, w2),
    ensures
        wall_to_epoch(w1, off) + 60 <= wall_to_epoch(w2, off),
{
    if w1.year == w2.year && w1.month == w2.month && w1.day == w2.day {
    } else {
        lemma_date_strictly_monotonic(w1, w2);
    }
}

/// Leap-year test.
pub fn is_leap_year_exec(y: u16) -> (r: bool)
    ensures
        r == is_leap_year(y as int),
{
    y % 4 == 0 && (y % 100 != 0 || y % 400 == 0)
}

/// Length of year `y` in days.
pub fn year_length_exec(y: u16) -> (r: u16)
    ensures
        r as int == year_length(y as int),
{
    if is_leap_year_exec(y) {
        366
    } else {
        365
    }
}

/// Days in month `m` of year `y`.
pub fn days_in_month_exec(y: u16, m: u8) -> (r: u8)
    requires
        1 <= m <= 12,
    ensures
        r as int == days_in_month(y as int, m as int),
{
    if m == 2 {
        if is_leap_year_exec(y) {
            29
        } else {
            28
        }
    } else if m == 4 || m == 6 || m == 9 || m == 11 {
        30
    } else {
        31
    }
}

/// Days from 1970-01-01 to `y`-01-01, counted year by year.
#[verifier::loop_isolation(false)]
pub fn days_to_year_exec(target: u16) -> (r: i64)
    requires
        target <= 10000,
    ensures
        r as int == days_to_year(target as int),
{
    let mut days: i64 = 0;
    let mut y: u16 = 1970;
    if target >= 1970 {
        while y < target
            invariant
                1970 <= y <= target,
                days == days_to_year(y as int),
            decreases target - y,
        {
            proof {
                lemma_days_to_year_step(y as int);
                lemma_days_to_year_bounds(1970, y as int + 1);
            }
            days = days + year_length_exec(y) as i64;
            y = y + 1;
        }
    } else {
        while y > target
            invariant
                target <= y <= 1970,
                days == days_to_year(y as int),
            decreases y - target,
        {
            proof {
                lemma_days_to_year_step(y as int - 1);
                lemma_days_to_year_bounds(y as int - 1, 1970);
            }
            y = y - 1;
            days = days - year_length_exec(y) as i64;
        }
    }
    days
}

/// Epoch seconds of wall-clock value `w` read `offset_secs` seconds east
/// of UTC.
#[verifier::loop_isolation(false)]
pub fn epoch_from_wall(w: &WallClock, offset_secs: i32) -> (r: i64)
    requires
        w.valid(),
        -MAX_OFFSET_SECS < offset_secs < MAX_OFFSET_SECS,
    ensures
        r as int == wall_to_epoch(*w, offset_secs as int),
{
    let mut days: i64 = days_to_year_exec(w.year);
    proof {
        lemma_days_to_year_bounds(0, w.year as int);
        lemma_days_to_year_bounds(0, 1970);
        lemma_days_to_year_bounds(w.year as int, 10000);
        lemma_days_to_year_bounds(1970, 10000);
    }
    let mut m: u8 = 1;
    while m < w.month
        invariant
            1 <= m <= w.month,
            days == days_to_year(w.year as int) + days_to_month(w.year as int, m as int),
        decreases w.month - m,
    {
        proof {
            lemma_days_to_month_bounds(w.year as int, 1, m as int + 1);
        }
        days = days + days_in_month_exec(w.year, m) as i64;
        m = m + 1;
    }
    proof {
        lemma_days_to_month_bounds(w.year as int, 1, w.month as int);
    }
    let days_civil: i64 = days + (w.day - 1) as i64;
    days_civil * 86400 + (w.hour as i64) * 3600 + (w.minute as i64) * 60 - (offset_secs as i64)
}

/// The earliest local second the calendar covers: 0000-01-01T00:00.
pub open spec fn min_local_secs() -> int {
    days_to_year(0) * 86400
}

/// The latest local second the calendar covers: the last second of
/// 9999-12-31.
pub open spec fn max_local_secs() -> int {
    days_to_year(10000) * 86400 - 1
}

/// The wall-clock value, truncated to the minute, of a local-time second
/// count (seconds since the epoch as read on the local clock): the unique
/// valid value whose minute contains `local`.
pub fn wall_from_local_secs(local: i64) -> (w: WallClock)
    requires
        min_local_secs() <= local <= max_local_secs(),
    ensures
        w.valid(),
        wall_to_epoch(w, 0) <= local < wall_to_epoch(w, 0) + 60,
        wall_to_epoch(w, 0) % 60 == 0,
{
    proof {
        lemma_days_to_year_bounds(0, 1970);
        lemma_days_to_year_bounds(0, 10000);
    }
    // days_to_year(0), computed once so the remaining work is nonnegative
    let base: i64 = days_to_year_exec(0);
    let shifted: u64 = (local - base * 86400) as u64;
    let day_index: u64 = shifted / 86400;
    let secs_of_day: u64 = shifted % 86400;
    proof {
        vstd::arithmetic::div_mod::lemma_fundamental_div_mod(shifted as int, 86400);
    }
    assert(86400 * day_index + secs_of_day == shifted);
    let mut y: u16 = 0;
    let mut rem: u64 = day_index;
    loop
        invariant
            y <= 9999,
            days_to_year(y as int) + rem == days_to_year(0) + day_index,
            days_to_year(0) + day_index < days_to_year(10000),
        ensures
            y <= 9999,
            days_to_year(y as int) + rem == days_to_year(0) + day_index,
            rem < year_length(y as int),
        decreases rem,
    {
        let yl = year_length_exec(y) as u64;
        if rem < yl {
            break;
        }
        proof {
            lemma_days_to_year_step(y as int);
            if y == 9999 {
                // a full year left above 9999 would push `local` past the
                // calendar's last second
                assert(false);
            }
            lemma_days_to_year_bounds(0, y as int + 1);
        }
        rem = rem - yl;
        y = y + 1;
    }
    let mut m: u8 = 1;
    loop
        invariant
            1 <= m <= 12,
            days_to_year(y as int) + days_to_month(y as int, m as int) + rem == days_to_year(0)
                + day_index,
            rem < year_length(y as int) - days_to_month(y as int, m as int),
        ensures
            1 <= m <= 12,
            days_to_year(y as int) + days_to_month(y as int, m as int) + rem == days_to_year(0)
                + day_index,
            rem < days_in_month(y as int, m as int),
        decreases 12 - m,
    {
        let ml = days_in_month_exec(y, m) as u64;
        if rem < ml {
            break;
        }
        proof {
            if m == 12 {
                lemma_days_to_month_full_year(y as int);
                assert(false);
            }
        }
        rem = rem - ml;
        m = m + 1;
    }
    let day: u8 = (rem + 1) as u8;
    let hour: u8 = (secs_of_day / 3600) as u8;
    let minute: u8 = ((secs_of_day % 3600) / 60) as u8;
    let w = WallClock { year: y, month: m, day, hour, minute };
    proof {
        vstd::arithmetic::div_mod::lemma_fundamental_div_mod(secs_of_day as int, 3600);
        vstd::arithmetic::div_mod::lemma_fundamental_div_mod(secs_of_day as int % 3600, 60);
        assert(3600 * (secs_of_day as int / 3600) + secs_of_day as int % 3600 == secs_of_day);
        assert(60 * ((secs_of_day as int % 3600) / 60) + (secs_of_day as int % 3600) % 60
            == secs_of_day as int % 3600);
        assert(wall_to_epoch(w, 0) == 60 * (1440 * days_from_civil(
            w.year as int,
            w.month as int,
            w.day as int,
        ) + 60 * w.hour + w.minute));
        vstd::arithmetic::div_mod::lemma_mod_multiples_basic(
            1440 * days_from_civil(w.year as int, w.month as int, w.day as int) + 60 * w.hour
                + w.minute,
            60,
        );
    }
    w
}

} // verus!
