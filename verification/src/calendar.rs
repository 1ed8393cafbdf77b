//! Calendar dates as plain values, with proleptic-Gregorian validity as
//! their invariant. Collaborators that speak in a date-time library's types
//! convert at the boundary.

use vstd::prelude::*;

verus! {

/// A proleptic-Gregorian leap year.
pub open spec fn is_leap_year(year: int) -> bool {
    (year % 4 == 0 && year % 100 != 0) || year % 400 == 0
}

/// How many days the month has in that year.
pub open spec fn days_in_month(year: int, month: int) -> int
    recommends
        1 <= month <= 12,
{
    if month == 2 {
        if is_leap_year(year) {
            29
        } else {
            28
        }
    } else if month == 4 || month == 6 || month == 9 || month == 11 {
        30
    } else {
        31
    }
}

/// Whether the components form a real calendar date.
pub open spec fn valid_date(year: int, month: int, day: int) -> bool {
    1 <= month <= 12 && 1 <= day <= days_in_month(year, month)
}

/// A calendar date. Constructed values always satisfy `well_formed`.
#[derive(Debug, Clone, Copy, PartialEq, Eq, Structural)]
pub struct CalendarDate {
    pub year: i32,
    pub month: u8,
    pub day: u8,
}

fn divisible_exec(year: i32, d: u64) -> (r: bool)
    requires
        d == 4 || d == 100 || d == 400,
    ensures
        r == ((year as int) % (d as int) == 0),
{
    let shifted: u64 = ((year as i64) + 4_000_000_000i64) as u64;
    let r = shifted % d == 0;
    proof {
        let dd = d as int;
        vstd::arithmetic::div_mod::lemma_mod_multiples_vanish(
            4_000_000_000int / dd,
            year as int,
            dd,
        );
        if d == 4 {
            assert(4_000_000_000int / 4int == 1_000_000_000int);
            assert(dd * (4_000_000_000int / dd) == 4_000_000_000int);
        } else if d == 100 {
            assert(4_000_000_000int / 100int == 40_000_000int);
            assert(dd * (4_000_000_000int / dd) == 4_000_000_000int);
        } else {
            assert(4_000_000_000int / 400int == 10_000_000int);
            assert(dd * (4_000_000_000int / dd) == 4_000_000_000int);
        }
    }
    r
}

fn days_in_month_exec(year: i32, month: u8) -> (r: u8)
    requires
        1 <= month <= 12,
    ensures
        r as int == days_in_month(year as int, month as int),
{
    if month == 2 {
        let leap = (divisible_exec(year, 4u64) && !divisible_exec(year, 100u64))
            || divisible_exec(year, 400u64);
        if leap {
            29
        } else {
            28
        }
    } else if month == 4 || month == 6 || month == 9 || month == 11 {
        30
    } else {
        31
    }
}

impl CalendarDate {
    /// The validity invariant of a date value.
    pub open spec fn well_formed(self) -> bool {
        valid_date(self.year as int, self.month as int, self.day as int)
    }

    /// `Some` exactly when the components form a real calendar date.
    pub fn from_ymd(year: i32, month: u8, day: u8) -> (r: Option<CalendarDate>)
        ensures
            r is Some <==> valid_date(year as int, month as int, day as int),
            r matches Some(d) ==> d == (CalendarDate { year, month, day }) && d.well_formed(),
    {
        if month < 1 || month > 12 {
            return None;
        }
        let last = days_in_month_exec(year, month);
        if day < 1 || day > last {
            return None;
        }
        Some(CalendarDate { year, month, day })
    }
}

} // verus!
