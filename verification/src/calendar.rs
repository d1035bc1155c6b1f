//! Calendar dates in chrono's proleptic Gregorian calendar, held as plain
//! (year, month, day) and handed to `chrono` for validation, stepping and
//! formatting.

use vstd::prelude::*;

use chrono::Datelike;

use crate::text::decimal_text;

verus! {

/// The earliest year chrono represents.
pub const MIN_YEAR: i32 = -262143;

/// The latest year chrono represents.
pub const MAX_YEAR: i32 = 262142;

/// Whether `y` is a leap year of the proleptic Gregorian calendar.
pub open spec fn is_leap(y: int) -> bool {
    (y % 4 == 0 && y % 100 != 0) || y % 400 == 0
}

/// The number of days of month `m` of year `y`.
pub open spec fn days_in_month(y: int, m: int) -> int {
    if m == 2 {
        if is_leap(y) { 29 } else { 28 }
    } else if m == 4 || m == 6 || m == 9 || m == 11 {
        30
    } else {
        31
    }
}

/// Whether (y, m, d) is a date chrono can represent.
pub open spec fn valid_ymd(y: int, m: int, d: int) -> bool {
    &&& MIN_YEAR <= y <= MAX_YEAR
    &&& 1 <= m <= 12
    &&& 1 <= d <= days_in_month(y, m)
}

/// The calendar day after a valid (y, m, d); none after the last date chrono
/// represents (or for an invalid date).
pub open spec fn next_ymd(y: int, m: int, d: int) -> Option<(int, int, int)> {
    if !valid_ymd(y, m, d) {
        None
    } else if d < days_in_month(y, m) {
        Some((y, m, d + 1))
    } else if m < 12 {
        Some((y, m + 1, 1))
    } else if y < MAX_YEAR {
        Some((y + 1, 1, 1))
    } else {
        None
    }
}

/// An order key of dates: chronological order on valid dates.
pub open spec fn ymd_key(y: int, m: int, d: int) -> int {
    y * 512 + m * 32 + d
}

/// The digits of `n` padded with leading zeros to at least `w` characters.
pub open spec fn zero_padded(n: nat, w: nat) -> Seq<char>
    decreases w,
{
    if decimal_text(n).len() >= w {
        decimal_text(n)
    } else {
        seq!['0'] + zero_padded(n, (w - 1) as nat)
    }
}

/// How chrono prints a year with `%Y`: four digits, zero padded, for years
/// 0 to 9999; with a sign and at least four digits otherwise.
pub open spec fn year_text(y: int) -> Seq<char> {
    if 0 <= y <= 9999 {
        zero_padded(y as nat, 4)
    } else if y < 0 {
        seq!['-'] + zero_padded((-y) as nat, 4)
    } else {
        seq!['+'] + zero_padded(y as nat, 4)
    }
}

/// How chrono prints a date with `%Y%m%d`.
pub open spec fn ymd_text(y: int, m: int, d: int) -> Seq<char> {
    year_text(y) + zero_padded(m as nat, 2) + zero_padded(d as nat, 2)
}

/// Whether `NaiveDate::from_ymd_opt(y, m, d)` gives a date: exactly when
/// (y, m, d) is a valid date of chrono's calendar.
#[verifier::external_body]
fn chrono_date_exists(y: i32, m: u32, d: u32) -> (b: bool)
    ensures
        b == valid_ymd(y as int, m as int, d as int),
{
    chrono::NaiveDate::from_ymd_opt(y, m, d).is_some()
}

/// `NaiveDate::succ_opt` on the date (y, m, d): the next calendar date, or
/// none after `NaiveDate::MAX`.
#[verifier::external_body]
fn chrono_succ(y: i32, m: u32, d: u32) -> (r: Option<(i32, u32, u32)>)
    requires
        valid_ymd(y as int, m as int, d as int),
    ensures
        match r {
            Some((y2, m2, d2)) => next_ymd(y as int, m as int, d as int) == Some((y2 as int, m2 as int, d2 as int)),
            None => next_ymd(y as int, m as int, d as int) is None,
        },
{
    match chrono::NaiveDate::from_ymd_opt(y, m, d).and_then(|x| x.succ_opt()) {
        Some(n) => Some((n.year(), n.month(), n.day())),
        None => None,
    }
}

/// `date.format("%Y%m%d").to_string()` on the date (y, m, d).
#[verifier::external_body]
fn chrono_ymd_text(y: i32, m: u32, d: u32) -> (s: String)
    requires
        valid_ymd(y as int, m as int, d as int),
    ensures
        s@ == ymd_text(y as int, m as int, d as int),
{
    match chrono::NaiveDate::from_ymd_opt(y, m, d) {
        Some(date) => date.format("%Y%m%d").to_string(),
        None => String::new(),
    }
}

/// A valid date of chrono's calendar.
#[derive(Debug, Clone, Copy, PartialEq, Eq)]
pub struct CalendarDate {
    year: i32,
    month: u32,
    day: u32,
}

impl CalendarDate {
    #[verifier::type_invariant]
    spec fn inv(self) -> bool {
        valid_ymd(self.year as int, self.month as int, self.day as int)
    }

    pub closed spec fn y(self) -> int {
        self.year as int
    }

    pub closed spec fn m(self) -> int {
        self.month as int
    }

    pub closed spec fn d(self) -> int {
        self.day as int
    }

    /// The order key of the date.
    pub open spec fn key(self) -> int {
        ymd_key(self.y(), self.m(), self.d())
    }

    /// The date (y, m, d), if chrono represents it.
    pub fn from_ymd_opt(year: i32, month: u32, day: u32) -> (r: Option<CalendarDate>)
        ensures
            r is Some <==> valid_ymd(year as int, month as int, day as int),
            r matches Some(c) ==> c.y() == year && c.m() == month && c.d() == day,
    {
        if chrono_date_exists(year, month, day) {
            Some(CalendarDate { year, month, day })
        } else {
            None
        }
    }

    pub fn year(&self) -> (y: i32)
        ensures
            y == self.y(),
    {
        self.year
    }

    pub fn month(&self) -> (m: u32)
        ensures
            m == self.m(),
    {
        self.month
    }

    pub fn day(&self) -> (d: u32)
        ensures
            d == self.d(),
    {
        self.day
    }

    /// Whether `self` is on or before `other`.
    pub fn le(&self, other: &CalendarDate) -> (b: bool)
        ensures
            b == (self.key() <= other.key()),
            valid_ymd(self.y(), self.m(), self.d()),
            valid_ymd(other.y(), other.m(), other.d()),
    {
        proof {
            use_type_invariant(self);
            use_type_invariant(other);
        }
        self.year < other.year || (self.year == other.year && (self.month < other.month
            || (self.month == other.month && self.day <= other.day)))
    }

    /// The next calendar day; none after the last date chrono represents.
    pub fn succ_opt(&self) -> (r: Option<CalendarDate>)
        ensures
            valid_ymd(self.y(), self.m(), self.d()),
            match r {
                Some(n) => next_ymd(self.y(), self.m(), self.d()) == Some((n.y(), n.m(), n.d())),
                None => next_ymd(self.y(), self.m(), self.d()) is None,
            },
    {
        proof { use_type_invariant(self); }
        match chrono_succ(self.year, self.month, self.day) {
            Some((y, m, d)) => Some(CalendarDate { year: y, month: m, day: d }),
            None => None,
        }
    }

    /// The date as chrono prints it with `%Y%m%d`.
    pub fn ymd_text(&self) -> (s: String)
        ensures
            s@ == ymd_text(self.y(), self.m(), self.d()),
            valid_ymd(self.y(), self.m(), self.d()),
    {
        proof { use_type_invariant(self); }
        chrono_ymd_text(self.year, self.month, self.day)
    }
}

/// The next date of a valid date is a later valid date.
pub proof fn lemma_next_ymd(y: int, m: int, d: int)
    requires
        next_ymd(y, m, d) is Some,
    ensures
        ({
            let n = next_ymd(y, m, d)->0;
            valid_ymd(n.0, n.1, n.2) && ymd_key(n.0, n.1, n.2) > ymd_key(y, m, d)
        }),
{
}

/// The last date chrono represents has no next date, and every other valid
/// date has one.
pub proof fn lemma_next_ymd_exists(y: int, m: int, d: int)
    requires
        valid_ymd(y, m, d),
        ymd_key(y, m, d) < ymd_key(MAX_YEAR as int, 12, 31),
    ensures
        next_ymd(y, m, d) is Some,
{
}

} // verus!
