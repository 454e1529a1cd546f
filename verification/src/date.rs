//! Calendar dates as (year, month, day): validity in the proleptic
//! Gregorian calendar over the years `chrono` supports, the previous day,
//! and the weekday and text that `chrono` gives.
use vstd::prelude::*;

use chrono::{Datelike, NaiveDate};

use crate::numeric::nat_digits;

verus! {

/// The first and last years `chrono::NaiveDate` supports.
pub open spec fn min_year() -> int {
    -262143
}

pub open spec fn max_year() -> int {
    262142
}

pub open spec fn is_leap(y: int) -> bool {
    y % 4 == 0 && (y % 100 != 0 || y % 400 == 0)
}

pub open spec fn days_in_month(y: int, m: int) -> int {
    if m == 2 {
        if is_leap(y) {
            29
        } else {
            28
        }
    } else if m == 4 || m == 6 || m == 9 || m == 11 {
        30
    } else {
        31
    }
}

/// `NaiveDate::from_ymd_opt(y, m, d)` is `Some` exactly for these.
pub open spec fn valid_date(y: int, m: int, d: int) -> bool {
    min_year() <= y <= max_year() && 1 <= m <= 12 && 1 <= d <= days_in_month(y, m)
}

/// `NaiveDate::pred_opt`: the previous day, `None` before the first
/// supported day.
pub open spec fn pred_date(y: int, m: int, d: int) -> Option<(int, int, int)> {
    if d > 1 {
        Some((y, m, d - 1))
    } else if m > 1 {
        Some((y, m - 1, days_in_month(y, m - 1)))
    } else if y > min_year() {
        Some((y - 1, 12, 31))
    } else {
        None
    }
}

/// `NaiveDate::succ_opt`: the next day, `None` after the last supported
/// day.
pub open spec fn succ_date(y: int, m: int, d: int) -> Option<(int, int, int)> {
    if d < days_in_month(y, m) {
        Some((y, m, d + 1))
    } else if m < 12 {
        Some((y, m + 1, 1))
    } else if y < max_year() {
        Some((y + 1, 1, 1))
    } else {
        None
    }
}

/// Dates in calendar order.
pub open spec fn date_lt(a: (int, int, int), b: (int, int, int)) -> bool {
    a.0 < b.0 || (a.0 == b.0 && (a.1 < b.1 || (a.1 == b.1 && a.2 < b.2)))
}

/// A number written with at least four digits, zero-padded.
pub open spec fn four_digits(n: nat) -> Seq<char> {
    let ds = nat_digits(n);
    let pad: nat = if ds.len() < 4 {
        (4 - ds.len()) as nat
    } else {
        0
    };
    Seq::new(pad, |i: int| '0') + ds
}

/// A number below 100 written with two digits.
pub open spec fn two_digits(n: int) -> Seq<char> {
    seq![((n / 10) + 48) as char, ((n % 10) + 48) as char]
}

/// The year as `%Y` writes it: four digits for the years 0 to 9999, else a
/// sign and at least four digits.
pub open spec fn year_text(y: int) -> Seq<char> {
    if 0 <= y <= 9999 {
        four_digits(y as nat)
    } else if y < 0 {
        seq!['-'] + four_digits((-y) as nat)
    } else {
        seq!['+'] + four_digits(y as nat)
    }
}

/// The full English name of month `m` (1-12), as `%B` writes it.
pub open spec fn month_name(m: int) -> Seq<char> {
    if m == 1 {
        "January"@
    } else if m == 2 {
        "February"@
    } else if m == 3 {
        "March"@
    } else if m == 4 {
        "April"@
    } else if m == 5 {
        "May"@
    } else if m == 6 {
        "June"@
    } else if m == 7 {
        "July"@
    } else if m == 8 {
        "August"@
    } else if m == 9 {
        "September"@
    } else if m == 10 {
        "October"@
    } else if m == 11 {
        "November"@
    } else {
        "December"@
    }
}

/// The text of `format("%B %Y")`: the month's full English name, a space
/// and the year.
pub open spec fn month_year_text(y: int, m: int, d: int) -> Seq<char> {
    month_name(m) + seq![' '] + year_text(y)
}

/// The days of year `y` before month `m`.
pub open spec fn days_before_month(y: int, m: int) -> int
    decreases m,
{
    if m <= 1 {
        0
    } else {
        days_before_month(y, m - 1) + days_in_month(y, m - 1)
    }
}

/// The number of a day in the proleptic Gregorian calendar, January 1 of
/// year 1 being day 1 (what `Datelike::num_days_from_ce` counts).
pub open spec fn day_number(y: int, m: int, d: int) -> int {
    let p = y - 1;
    365 * p + p / 4 - p / 100 + p / 400 + days_before_month(y, m) + d
}

/// The weekday of a date, counted from Monday (0) to Sunday (6): day 1,
/// January 1 of year 1, is a Monday.
pub open spec fn weekday_of(y: int, m: int, d: int) -> int {
    (day_number(y, m, d) - 1) % 7
}

/// The text of `NaiveDate`'s `Display` (`%Y-%m-%d`): the year, then the
/// month and the day with two digits each.
pub open spec fn iso_text(y: int, m: int, d: int) -> Seq<char> {
    year_text(y) + seq!['-'] + two_digits(m) + seq!['-'] + two_digits(d)
}

/// Whether `y` is a leap year.
pub fn leap_year(y: i32) -> (b: bool)
    ensures
        b == is_leap(y as int),
{
    y % 4 == 0 && (y % 100 != 0 || y % 400 == 0)
}

/// The number of days of month `m` (1-12) of year `y`.
pub fn month_days(y: i32, m: u32) -> (r: u32)
    ensures
        r == days_in_month(y as int, m as int),
{
    if m == 2 {
        if leap_year(y) {
            29
        } else {
            28
        }
    } else if m == 4 || m == 6 || m == 9 || m == 11 {
        30
    } else {
        31
    }
}

/// `NaiveDate::from_ymd_opt`: the date where it exists.
pub fn from_ymd(y: i32, m: u32, d: u32) -> (r: Option<(i32, u32, u32)>)
    ensures
        valid_date(y as int, m as int, d as int) ==> r == Some((y, m, d)),
        !valid_date(y as int, m as int, d as int) ==> r is None,
{
    if -262143 <= y && y <= 262142 && 1 <= m && m <= 12 && 1 <= d && d <= month_days(y, m) {
        Some((y, m, d))
    } else {
        None
    }
}

/// `NaiveDate::pred_opt`: the day before a valid date.
pub fn pred(date: (i32, u32, u32)) -> (r: Option<(i32, u32, u32)>)
    requires
        valid_date(date.0 as int, date.1 as int, date.2 as int),
    ensures
        match pred_date(date.0 as int, date.1 as int, date.2 as int) {
            Some((y, m, d)) => r matches Some(x) && x.0 == y && x.1 == m && x.2 == d,
            None => r is None,
        },
        r matches Some(x) ==> valid_date(x.0 as int, x.1 as int, x.2 as int),
{
    let (y, m, d) = date;
    if d > 1 {
        Some((y, m, d - 1))
    } else if m > 1 {
        Some((y, m - 1, month_days(y, m - 1)))
    } else if y > -262143 {
        Some((y - 1, 12, 31))
    } else {
        None
    }
}

/// `NaiveDate::succ_opt`: the day after a valid date.
pub fn succ(date: (i32, u32, u32)) -> (r: Option<(i32, u32, u32)>)
    requires
        valid_date(date.0 as int, date.1 as int, date.2 as int),
    ensures
        match succ_date(date.0 as int, date.1 as int, date.2 as int) {
            Some((y, m, d)) => r matches Some(x) && x.0 == y && x.1 == m && x.2 == d,
            None => r is None,
        },
        r matches Some(x) ==> valid_date(x.0 as int, x.1 as int, x.2 as int),
{
    let (y, m, d) = date;
    if d < month_days(y, m) {
        Some((y, m, d + 1))
    } else if m < 12 {
        Some((y, m + 1, 1))
    } else if y < 262142 {
        Some((y + 1, 1, 1))
    } else {
        None
    }
}

/// Whether `a` comes before `b`.
pub fn before(a: (i32, u32, u32), b: (i32, u32, u32)) -> (r: bool)
    ensures
        r == date_lt((a.0 as int, a.1 as int, a.2 as int), (b.0 as int, b.1 as int, b.2 as int)),
{
    a.0 < b.0 || (a.0 == b.0 && (a.1 < b.1 || (a.1 == b.1 && a.2 < b.2)))
}

/// `format("%B %Y")`: the month's full English name, a space, and the
/// year as `%Y` writes it (see `year_text`).
#[verifier::external_body]
pub(crate) fn month_year(date: (i32, u32, u32)) -> (r: String)
    requires
        valid_date(date.0 as int, date.1 as int, date.2 as int),
    ensures
        r@ == month_year_text(date.0 as int, date.1 as int, date.2 as int),
{
    match NaiveDate::from_ymd_opt(date.0, date.1, date.2) {
        Some(d) => d.format("%B %Y").to_string(),
        None => String::new(),
    }
}

/// The text of `format("%Y-%m")`: the year (zero-padded to four digits,
/// with a sign outside 0-9999) and the month as two digits.
pub open spec fn year_month_text(y: int, m: int, d: int) -> Seq<char> {
    year_text(y) + seq!['-'] + two_digits(m)
}

/// `format("%Y-%m")`: the year as `%Y` writes it (four digits for 0 to
/// 9999, else a sign and at least four digits), a dash, and the month with
/// two digits.
#[verifier::external_body]
pub(crate) fn year_month(date: (i32, u32, u32)) -> (r: String)
    requires
        valid_date(date.0 as int, date.1 as int, date.2 as int),
    ensures
        r@ == year_month_text(date.0 as int, date.1 as int, date.2 as int),
{
    match NaiveDate::from_ymd_opt(date.0, date.1, date.2) {
        Some(d) => d.format("%Y-%m").to_string(),
        None => String::new(),
    }
}

/// `NaiveDate::weekday`, counted from Monday (0) to Sunday (6): the
/// weekday of the proleptic Gregorian calendar, in which January 1 of
/// year 1 (day 1 of `num_days_from_ce`) is a Monday.
#[verifier::external_body]
pub(crate) fn weekday(date: (i32, u32, u32)) -> (r: u32)
    requires
        valid_date(date.0 as int, date.1 as int, date.2 as int),
    ensures
        r == weekday_of(date.0 as int, date.1 as int, date.2 as int),
{
    match NaiveDate::from_ymd_opt(date.0, date.1, date.2) {
        Some(d) => d.weekday().num_days_from_monday(),
        None => 0,
    }
}

/// The whole days from date `b` to date `a`: the difference of their day
/// numbers.
pub open spec fn days_between_of(a: (int, int, int), b: (int, int, int)) -> int {
    day_number(a.0, a.1, a.2) - day_number(b.0, b.1, b.2)
}

/// `(a - b).num_days()` for two `NaiveDate`s: the whole days from `b` to
/// `a` (the difference of their `num_days_from_ce`), negative where `a` is
/// the earlier.
#[verifier::external_body]
pub(crate) fn days_between(a: (i32, u32, u32), b: (i32, u32, u32)) -> (r: i64)
    requires
        valid_date(a.0 as int, a.1 as int, a.2 as int),
        valid_date(b.0 as int, b.1 as int, b.2 as int),
    ensures
        r == days_between_of((a.0 as int, a.1 as int, a.2 as int), (b.0 as int, b.1 as int, b.2 as int)),
{
    match (NaiveDate::from_ymd_opt(a.0, a.1, a.2), NaiveDate::from_ymd_opt(b.0, b.1, b.2)) {
        (Some(x), Some(y)) => (x - y).num_days(),
        _ => 0,
    }
}

/// `NaiveDate`'s `Display`: `%Y-%m-%d`, the year as `%Y` writes it and
/// the month and the day with two digits each.
#[verifier::external_body]
pub(crate) fn iso_date(date: (i32, u32, u32)) -> (r: String)
    requires
        valid_date(date.0 as int, date.1 as int, date.2 as int),
    ensures
        r@ == iso_text(date.0 as int, date.1 as int, date.2 as int),
{
    match NaiveDate::from_ymd_opt(date.0, date.1, date.2) {
        Some(d) => d.to_string(),
        None => String::new(),
    }
}

} // verus!
