use vstd::prelude::*;

verus! {

/// A capture time: a plain calendar date with a wall-clock time, already
/// normalized (no time-zone attached).
#[derive(Debug, PartialEq, Eq, Structural, Clone, Copy)]
pub struct Timestamp {
    pub year: u32,
    pub month: u32,
    pub day: u32,
    pub hour: u32,
    pub minute: u32,
    pub second: u32,
}

/// The Gregorian leap-year rule.
pub open spec fn is_leap_year(y: int) -> bool {
    (y % 4 == 0 && y % 100 != 0) || y % 400 == 0
}

/// Number of days in month `m` of year `y` (for `m` in 1..=12).
pub open spec fn days_in_month(y: int, m: int) -> int {
    if m == 2 {
        if is_leap_year(y) {
            29
        } else {
            28
        }
    } else if m == 4 || m == 6 || m == 9 || m == 11 {
        30
    } else {
        31
    }
}

/// A real calendar date with year 0..=9999.
pub open spec fn date_wf(y: int, m: int, d: int) -> bool {
    &&& 0 <= y <= 9999
    &&& 1 <= m <= 12
    &&& 1 <= d <= days_in_month(y, m)
}

/// The calendar date one day after `(y, m, d)`.
pub open spec fn next_date(y: int, m: int, d: int) -> (int, int, int) {
    if d < days_in_month(y, m) {
        (y, m, d + 1)
    } else if m < 12 {
        (y, m + 1, 1)
    } else {
        (y + 1, 1, 1)
    }
}

/// The calendar date one day before `(y, m, d)`.
pub open spec fn prev_date(y: int, m: int, d: int) -> (int, int, int) {
    if d > 1 {
        (y, m, d - 1)
    } else if m > 1 {
        (y, m - 1, days_in_month(y, m - 1))
    } else {
        (y - 1, 12, 31)
    }
}

pub proof fn lemma_next_date_wf(y: int, m: int, d: int)
    requires
        date_wf(y, m, d),
        !(y == 9999 && m == 12 && d == 31),
    ensures
        date_wf(next_date(y, m, d).0, next_date(y, m, d).1, next_date(y, m, d).2),
{
}

pub proof fn lemma_prev_date_wf(y: int, m: int, d: int)
    requires
        date_wf(y, m, d),
        !(y == 0 && m == 1 && d == 1),
    ensures
        date_wf(prev_date(y, m, d).0, prev_date(y, m, d).1, prev_date(y, m, d).2),
{
}

impl Timestamp {
    /// Validity: a real calendar date in year 0..=9999 and a real wall-clock
    /// time.
    pub open spec fn wf(self) -> bool {
        &&& date_wf(self.year as int, self.month as int, self.day as int)
        &&& self.hour <= 23
        &&& self.minute <= 59
        &&& self.second <= 59
    }

    pub fn new(year: u32, month: u32, day: u32, hour: u32, minute: u32, second: u32) -> (t:
        Timestamp)
        ensures
            t == (Timestamp { year, month, day, hour, minute, second }),
    {
        Timestamp { year, month, day, hour, minute, second }
    }
}

/// Number of days in month `m` of year `y`.
pub fn days_in_month_exec(y: u32, m: u32) -> (d: u32)
    requires
        1 <= m <= 12,
    ensures
        d == days_in_month(y as int, m as int),
{
    if m == 2 {
        if (y % 4 == 0 && y % 100 != 0) || y % 400 == 0 {
            29
        } else {
            28
        }
    } else if m == 4 || m == 6 || m == 9 || m == 11 {
        30
    } else {
        31
    }
}

/// The calendar date one day after `(y, m, d)`.
pub fn next_date_exec(y: u32, m: u32, d: u32) -> (r: (u32, u32, u32))
    requires
        date_wf(y as int, m as int, d as int),
        !(y == 9999 && m == 12 && d == 31),
    ensures
        (r.0 as int, r.1 as int, r.2 as int) == next_date(y as int, m as int, d as int),
        date_wf(r.0 as int, r.1 as int, r.2 as int),
{
    proof {
        lemma_next_date_wf(y as int, m as int, d as int);
    }
    if d < days_in_month_exec(y, m) {
        (y, m, d + 1)
    } else if m < 12 {
        (y, m + 1, 1)
    } else {
        (y + 1, 1, 1)
    }
}

/// The calendar date one day before `(y, m, d)`.
pub fn prev_date_exec(y: u32, m: u32, d: u32) -> (r: (u32, u32, u32))
    requires
        date_wf(y as int, m as int, d as int),
        !(y == 0 && m == 1 && d == 1),
    ensures
        (r.0 as int, r.1 as int, r.2 as int) == prev_date(y as int, m as int, d as int),
        date_wf(r.0 as int, r.1 as int, r.2 as int),
{
    proof {
        lemma_prev_date_wf(y as int, m as int, d as int);
    }
    if d > 1 {
        (y, m, d - 1)
    } else if m > 1 {
        (y, m - 1, days_in_month_exec(y, m - 1))
    } else {
        (y - 1, 12, 31)
    }
}

} // verus!
