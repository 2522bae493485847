use vstd::prelude::*;
use vstd::arithmetic::div_mod::{
    lemma_fundamental_div_mod, lemma_fundamental_div_mod_converse, lemma_mod_bound,
    lemma_mod_multiples_vanish,
};
use chrono::{Datelike, Days, Local, NaiveDate};

verus! {

/// The smallest year a calendar date can have.
pub const MIN_YEAR: i32 = -262143;

/// The largest year a calendar date can have.
pub const MAX_YEAR: i32 = 262142;

/// A day of the proleptic Gregorian calendar.
#[derive(Debug, Clone, Copy, PartialEq, Eq, Structural, Hash)]
pub struct Date {
    pub year: i32,
    pub month: u32,
    pub day: u32,
}

/// Whether `y` is a leap year of the Gregorian calendar.
pub open spec fn is_leap(y: int) -> bool {
    y % 4 == 0 && (y % 100 != 0 || y % 400 == 0)
}

/// The number of days of month `m` (1 to 12) in year `y`.
pub open spec fn days_in_month(y: int, m: int) -> int {
    if m == 2 {
        if is_leap(y) { 29 } else { 28 }
    } else if m == 4 || m == 6 || m == 9 || m == 11 {
        30
    } else {
        31
    }
}

/// Whether year `y`, month `m`, day `d` name an existing day in the supported range.
pub open spec fn ymd_valid(y: int, m: int, d: int) -> bool {
    &&& MIN_YEAR <= y <= MAX_YEAR
    &&& 1 <= m <= 12
    &&& 1 <= d <= days_in_month(y, m)
}

/// The number of days in the years before year `y`, counted from year 1.
pub open spec fn days_before_year(y: int) -> int {
    let p = y - 1;
    365 * p + p / 4 - p / 100 + p / 400
}

/// The number of days of year `y` before the first day of month `m`.
pub open spec fn days_before_month(y: int, m: int) -> int {
    let leap: int = if is_leap(y) { 1 } else { 0 };
    if m <= 1 { 0 }
    else if m == 2 { 31 }
    else if m == 3 { 59 + leap }
    else if m == 4 { 90 + leap }
    else if m == 5 { 120 + leap }
    else if m == 6 { 151 + leap }
    else if m == 7 { 181 + leap }
    else if m == 8 { 212 + leap }
    else if m == 9 { 243 + leap }
    else if m == 10 { 273 + leap }
    else if m == 11 { 304 + leap }
    else { 334 + leap }
}

/// The number of days in year `y`.
pub open spec fn year_length(y: int) -> int {
    if is_leap(y) { 366 } else { 365 }
}

/// The position of a day on the calendar: consecutive days have
/// consecutive numbers, 1 January of year 1 has number 1.
pub open spec fn day_number(y: int, m: int, d: int) -> int {
    days_before_year(y) + days_before_month(y, m) + d
}

/// The number of the first day of the supported range.
pub open spec fn first_day_number() -> int {
    day_number(MIN_YEAR as int, 1, 1)
}

/// The number of the last day of the supported range.
pub open spec fn last_day_number() -> int {
    day_number(MAX_YEAR as int, 12, 31)
}

impl Date {
    /// Whether the date names an existing day in the supported range.
    pub open spec fn valid(self) -> bool {
        ymd_valid(self.year as int, self.month as int, self.day as int)
    }

    /// The position of the date on the calendar.
    pub open spec fn number(self) -> int {
        day_number(self.year as int, self.month as int, self.day as int)
    }

    /// Lexicographic order of dates.
    pub open spec fn before(self, other: Date) -> bool {
        ||| self.year < other.year
        ||| self.year == other.year && self.month < other.month
        ||| self.year == other.year && self.month == other.month && self.day < other.day
    }
}

proof fn lemma_floor_step(y: int, k: int)
    requires
        k > 0,
    ensures
        y / k - (y - 1) / k == (if y % k == 0 { 1int } else { 0int }),
{
    lemma_fundamental_div_mod(y, k);
    lemma_mod_bound(y, k);
    let q = y / k;
    let r = y % k;
    assert(y == q * k + r) by (nonlinear_arith)
        requires
            y == k * q + r,
    ;
    if r == 0 {
        assert(y - 1 == (q - 1) * k + (k - 1)) by (nonlinear_arith)
            requires
                y == q * k + r,
                r == 0,
        ;
        lemma_fundamental_div_mod_converse(y - 1, k, q - 1, k - 1);
    } else {
        lemma_fundamental_div_mod_converse(y - 1, k, q, r - 1);
    }
}

/// Consecutive years: the days before year `y + 1` are those before year
/// `y` and the days of year `y`.
proof fn lemma_year_step(y: int)
    ensures
        days_before_year(y + 1) == days_before_year(y) + year_length(y),
{
    lemma_floor_step(y, 4);
    lemma_floor_step(y, 100);
    lemma_floor_step(y, 400);
    // y % 400 == 0 implies y % 100 == 0 and y % 4 == 0; y % 100 == 0 implies y % 4 == 0
    lemma_fundamental_div_mod(y, 400);
    lemma_fundamental_div_mod(y, 100);
    if y % 400 == 0 {
        let q = y / 400;
        lemma_fundamental_div_mod_converse(y, 100, 4 * q, 0);
        lemma_fundamental_div_mod_converse(y, 4, 100 * q, 0);
    } else if y % 100 == 0 {
        let q = y / 100;
        lemma_fundamental_div_mod_converse(y, 4, 25 * q, 0);
    }
}

/// Years further on start later.
proof fn lemma_years_ordered(a: int, b: int)
    requires
        a < b,
    ensures
        days_before_year(a) + year_length(a) <= days_before_year(b),
    decreases b - a,
{
    lemma_year_step(a);
    if a + 1 < b {
        lemma_years_ordered(a + 1, b);
        lemma_year_step(a + 1);
    }
}

/// A later date has a larger day number.
pub proof fn lemma_day_number_increasing(a: Date, b: Date)
    requires
        a.valid(),
        b.valid(),
        a.before(b),
    ensures
        a.number() < b.number(),
{
    if a.year < b.year {
        lemma_years_ordered(a.year as int, b.year as int);
    }
}

/// Distinct valid dates have distinct day numbers.
pub proof fn lemma_day_number_injective(a: Date, b: Date)
    requires
        a.valid(),
        b.valid(),
        a.number() == b.number(),
    ensures
        a == b,
{
    if a.before(b) {
        lemma_day_number_increasing(a, b);
    } else if b.before(a) {
        lemma_day_number_increasing(b, a);
    }
}

/// A date in a later year ends no later than that year starts.
proof fn lemma_within_year(d: Date)
    requires
        d.valid(),
    ensures
        d.number() <= days_before_year(d.year as int) + year_length(d.year as int),
        d.number() >= days_before_year(d.year as int) + 1,
        d.month < 12 ==> d.number() + 31 <= days_before_year(d.year as int) + year_length(d.year as int),
        d.month > 1 ==> d.number() >= days_before_year(d.year as int) + 32,
{
}

/// Adding `n` days (1 to 28) stays in the supported range exactly when the
/// date is not among the last `n` days of the range.
pub proof fn lemma_room_after(d: Date, n: int)
    requires
        d.valid(),
        1 <= n <= 28,
    ensures
        d.number() + n <= last_day_number() <==> !(d.year == MAX_YEAR && d.month == 12
            && d.day > 31 - n),
{
    lemma_within_year(d);
    if d.year < MAX_YEAR {
        lemma_years_ordered(d.year as int, MAX_YEAR as int);
    }
}

/// Subtracting `n` days (1 to 28) stays in the supported range exactly when
/// the date is not among the first `n` days of the range.
pub proof fn lemma_room_before(d: Date, n: int)
    requires
        d.valid(),
        1 <= n <= 28,
    ensures
        d.number() - n >= first_day_number() <==> !(d.year == MIN_YEAR && d.month == 1
            && d.day <= n),
{
    lemma_within_year(d);
    if d.year > MIN_YEAR {
        lemma_years_ordered(MIN_YEAR as int, d.year as int);
    }
}

/// The date `date` with its month replaced, when that day exists.
pub open spec fn with_month_spec(date: Date, month: u32) -> Option<Date> {
    if ymd_valid(date.year as int, month as int, date.day as int) {
        Some(Date { year: date.year, month, day: date.day })
    } else {
        None
    }
}

/// The date `date` with its year replaced, when that day exists.
pub open spec fn with_year_spec(date: Date, year: i32) -> Option<Date> {
    if ymd_valid(year as int, date.month as int, date.day as int) {
        Some(Date { year, month: date.month, day: date.day })
    } else {
        None
    }
}

/// Whether some valid date has day number `n`, and if so that the result
/// is such a date.
pub open spec fn shifted_spec(r: Option<Date>, n: int) -> bool {
    &&& (r is Some <==> first_day_number() <= n <= last_day_number())
    &&& (r matches Some(x) ==> x.valid() && x.number() == n)
}

/// `NaiveDate::with_month` of chrono: the same year and day in another
/// month, or `None` when that day does not exist or the month is not 1 to 12.
#[verifier::external_body]
fn naive_with_month(date: Date, month: u32) -> (r: Option<Date>)
    requires
        date.valid(),
    ensures
        r == with_month_spec(date, month),
{
    NaiveDate::from_ymd_opt(date.year, date.month, date.day).unwrap().with_month(month).map(
        |n| Date { year: n.year(), month: n.month(), day: n.day() },
    )
}

/// `NaiveDate::with_year` of chrono: the same month and day in another year,
/// or `None` when that day does not exist (29 February) or the year is out
/// of range.
#[verifier::external_body]
fn naive_with_year(date: Date, year: i32) -> (r: Option<Date>)
    requires
        date.valid(),
    ensures
        r == with_year_spec(date, year),
{
    NaiveDate::from_ymd_opt(date.year, date.month, date.day).unwrap().with_year(year).map(
        |n| Date { year: n.year(), month: n.month(), day: n.day() },
    )
}

/// `NaiveDate::checked_add_days` of chrono: the date `days` days later, or
/// `None` when that date is out of range or `days` exceeds `i32::MAX`.
#[verifier::external_body]
fn naive_checked_add_days(date: Date, days: u64) -> (r: Option<Date>)
    requires
        date.valid(),
    ensures
        days <= i32::MAX ==> shifted_spec(r, date.number() + days),
        days > i32::MAX ==> r is None,
{
    NaiveDate::from_ymd_opt(date.year, date.month, date.day).unwrap().checked_add_days(
        Days::new(days),
    ).map(|n| Date { year: n.year(), month: n.month(), day: n.day() })
}

/// `NaiveDate::checked_sub_days` of chrono: the date `days` days earlier, or
/// `None` when that date is out of range or `days` exceeds `i32::MAX`.
#[verifier::external_body]
fn naive_checked_sub_days(date: Date, days: u64) -> (r: Option<Date>)
    requires
        date.valid(),
    ensures
        days <= i32::MAX ==> shifted_spec(r, date.number() - days),
        days > i32::MAX ==> r is None,
{
    NaiveDate::from_ymd_opt(date.year, date.month, date.day).unwrap().checked_sub_days(
        Days::new(days),
    ).map(|n| Date { year: n.year(), month: n.month(), day: n.day() })
}

/// `Local::now().date_naive()` of chrono: today in the machine's time zone.
/// Only that it is a valid date is claimed; which day it is depends on the
/// clock.
#[verifier::external_body]
pub(crate) fn local_today() -> (r: Date)
    ensures
        r.valid(),
{
    let n = Local::now().date_naive();
    Date { year: n.year(), month: n.month(), day: n.day() }
}

/// The same day one month later (December goes to January of the next year).
pub open spec fn spec_next_month(d: Date) -> Date {
    if d.month == 12 {
        Date { year: (d.year + 1) as i32, month: 1, day: d.day }
    } else {
        Date { year: d.year, month: (d.month + 1) as u32, day: d.day }
    }
}

/// The same day one month earlier (January goes to December of the previous year).
pub open spec fn spec_prev_month(d: Date) -> Date {
    if d.month == 1 {
        Date { year: (d.year - 1) as i32, month: 12, day: d.day }
    } else {
        Date { year: d.year, month: (d.month - 1) as u32, day: d.day }
    }
}

/// Whether the same day exists one month later.
pub open spec fn next_month_defined(d: Date) -> bool {
    spec_next_month(d).valid()
}

/// Whether the same day exists one month earlier.
pub open spec fn prev_month_defined(d: Date) -> bool {
    spec_prev_month(d).valid()
}

/// The same day of the next month.
pub fn next_month(date: Date) -> (r: Date)
    requires
        date.valid(),
        next_month_defined(date),
    ensures
        r == spec_next_month(date),
        r.valid(),
{
    if date.month == 12 {
        let january = naive_with_month(date, 1).unwrap();
        naive_with_year(january, date.year + 1).unwrap()
    } else {
        naive_with_month(date, date.month + 1).unwrap()
    }
}

/// The same day of the previous month.
pub fn prev_month(date: Date) -> (r: Date)
    requires
        date.valid(),
        prev_month_defined(date),
    ensures
        r == spec_prev_month(date),
        r.valid(),
{
    if date.month == 1 {
        let december = naive_with_month(date, 12).unwrap();
        naive_with_year(december, date.year - 1).unwrap()
    } else {
        naive_with_month(date, date.month - 1).unwrap()
    }
}

/// The day a week later.
pub fn move_down(date: Date) -> (r: Date)
    requires
        date.valid(),
        date.number() + 7 <= last_day_number(),
    ensures
        r.valid(),
        r.number() == date.number() + 7,
{
    naive_checked_add_days(date, 7).unwrap()
}

/// The day a week earlier.
pub fn move_up(date: Date) -> (r: Date)
    requires
        date.valid(),
        date.number() - 7 >= first_day_number(),
    ensures
        r.valid(),
        r.number() == date.number() - 7,
{
    naive_checked_sub_days(date, 7).unwrap()
}

/// The next day.
pub fn move_right(date: Date) -> (r: Date)
    requires
        date.valid(),
        date.number() + 1 <= last_day_number(),
    ensures
        r.valid(),
        r.number() == date.number() + 1,
{
    naive_checked_add_days(date, 1).unwrap()
}

/// The previous day.
pub fn move_left(date: Date) -> (r: Date)
    requires
        date.valid(),
        date.number() - 1 >= first_day_number(),
    ensures
        r.valid(),
        r.number() == date.number() - 1,
{
    naive_checked_sub_days(date, 1).unwrap()
}

/// Whether `n` days (1 to 28) can be added to `date` within the supported range.
pub fn has_room_after(date: Date, n: u32) -> (r: bool)
    requires
        date.valid(),
        1 <= n <= 28,
    ensures
        r == (date.number() + n <= last_day_number()),
{
    proof { lemma_room_after(date, n as int); }
    !(date.year == MAX_YEAR && date.month == 12 && date.day > 31 - n)
}

/// Whether `n` days (1 to 28) can be subtracted from `date` within the supported range.
pub fn has_room_before(date: Date, n: u32) -> (r: bool)
    requires
        date.valid(),
        1 <= n <= 28,
    ensures
        r == (date.number() - n >= first_day_number()),
{
    proof { lemma_room_before(date, n as int); }
    !(date.year == MIN_YEAR && date.month == 1 && date.day <= n)
}

/// Whether the same day exists one month later.
pub fn can_go_to_next_month(date: Date) -> (r: bool)
    requires
        date.valid(),
    ensures
        r == next_month_defined(date),
{
    if date.month == 12 {
        date.year < MAX_YEAR
    } else {
        date.day <= days_in(date.year, date.month + 1)
    }
}

/// Whether the same day exists one month earlier.
pub fn can_go_to_prev_month(date: Date) -> (r: bool)
    requires
        date.valid(),
    ensures
        r == prev_month_defined(date),
{
    if date.month == 1 {
        date.year > MIN_YEAR
    } else {
        date.day <= days_in(date.year, date.month - 1)
    }
}

impl Date {
    /// Whether the date names an existing day in the supported range.
    pub fn is_valid(&self) -> (r: bool)
        ensures
            r == self.valid(),
    {
        MIN_YEAR <= self.year && self.year <= MAX_YEAR && 1 <= self.month && self.month <= 12
            && 1 <= self.day && self.day <= days_in(self.year, self.month)
    }
}

/// Whether a year is a leap year.
pub fn leap_year(year: i32) -> (r: bool)
    ensures
        r == is_leap(year as int),
{
    // shifting by a multiple of 400 years keeps the answer and makes the year positive
    let shifted: i64 = year as i64 + 400000 * 10000;
    proof {
        lemma_mod_multiples_vanish(1000000000, year as int, 4);
        lemma_mod_multiples_vanish(40000000, year as int, 100);
        lemma_mod_multiples_vanish(10000000, year as int, 400);
    }
    shifted % 4 == 0 && (shifted % 100 != 0 || shifted % 400 == 0)
}

/// The number of days of a month (1 to 12) of a year.
pub fn days_in(year: i32, month: u32) -> (r: u32)
    requires
        1 <= month <= 12,
    ensures
        r == days_in_month(year as int, month as int),
{
    if month == 2 {
        if leap_year(year) { 29 } else { 28 }
    } else if month == 4 || month == 6 || month == 9 || month == 11 {
        30
    } else {
        31
    }
}

/// Moving a day forward and then back (or back and then forward) returns to
/// the same day; likewise for a week.
pub proof fn lemma_day_and_week_moves_undo(d: Date, e: Date, f: Date)
    requires
        d.valid(),
        e.valid(),
        f.valid(),
    ensures
        e.number() == d.number() + 1 && f.number() == e.number() - 1 ==> f == d,
        e.number() == d.number() - 1 && f.number() == e.number() + 1 ==> f == d,
        e.number() == d.number() + 7 && f.number() == e.number() - 7 ==> f == d,
        e.number() == d.number() - 7 && f.number() == e.number() + 7 ==> f == d,
{
    if f.number() == d.number() {
        lemma_day_number_injective(f, d);
    }
}

/// Going to the next month and back (or back and then on) returns to the same day.
pub proof fn lemma_month_moves_undo(d: Date)
    requires
        d.valid(),
    ensures
        next_month_defined(d) ==> prev_month_defined(spec_next_month(d))
            && spec_prev_month(spec_next_month(d)) == d,
        prev_month_defined(d) ==> next_month_defined(spec_prev_month(d))
            && spec_next_month(spec_prev_month(d)) == d,
{
}

} // verus!
