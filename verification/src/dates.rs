//! Calendar support for the column locator: shifting a reference date by a
//! signed number of days (through chrono), and formatting the result as the
//! `DD/MM/YYYY` header strings the page uses.
use vstd::prelude::*;
use vstd::string::StrSliceExecFns;
use vstd::string::StringExecFns;
use chrono::Datelike;

verus! {

/// The proleptic-Gregorian date `delta` days after `year-month-day`, as
/// `(year, month, day, days since Monday)`; `None` when the given date is
/// invalid or the result leaves chrono's range.
pub uninterp spec fn shifted_date(year: i32, month: u32, day: u32, delta: i64) -> Option<
    (i32, u32, u32, u8),
>;

/// Relies on `chrono::NaiveDate`: `from_ymd_opt` (None exactly on an invalid
/// calendar date), `checked_add_signed` with `TimeDelta::try_days` (None when
/// out of range), and the documented ranges of `month` (1..=12), `day`
/// (1..=31) and `Weekday::num_days_from_monday` (0..=6).
#[verifier::external_body]
pub fn shift_ymd(year: i32, month: u32, day: u32, delta: i64) -> (r: Option<(i32, u32, u32, u8)>)
    ensures
        r == shifted_date(year, month, day, delta),
        r matches Some(t) ==> 1 <= t.1 <= 12 && 1 <= t.2 <= 31 && t.3 < 7,
{
    let base = chrono::NaiveDate::from_ymd_opt(year, month, day)?;
    let step = chrono::TimeDelta::try_days(delta)?;
    let d = base.checked_add_signed(step)?;
    Some((d.year(), d.month(), d.day(), d.weekday().num_days_from_monday() as u8))
}

/// The decimal digit character for `d`.
pub open spec fn digit_char(d: int) -> char
    recommends
        0 <= d < 10,
{
    if d == 0 {
        '0'
    } else if d == 1 {
        '1'
    } else if d == 2 {
        '2'
    } else if d == 3 {
        '3'
    } else if d == 4 {
        '4'
    } else if d == 5 {
        '5'
    } else if d == 6 {
        '6'
    } else if d == 7 {
        '7'
    } else if d == 8 {
        '8'
    } else {
        '9'
    }
}

/// A digit as a one-character string.
fn digit_str(d: u32) -> (r: &'static str)
    requires
        d < 10,
    ensures
        r@ =~= seq![digit_char(d as int)],
{
    proof {
        reveal_strlit("0");
        reveal_strlit("1");
        reveal_strlit("2");
        reveal_strlit("3");
        reveal_strlit("4");
        reveal_strlit("5");
        reveal_strlit("6");
        reveal_strlit("7");
        reveal_strlit("8");
        reveal_strlit("9");
    }
    match d {
        0 => "0",
        1 => "1",
        2 => "2",
        3 => "3",
        4 => "4",
        5 => "5",
        6 => "6",
        7 => "7",
        8 => "8",
        _ => "9",
    }
}

/// `n` in decimal, zero-padded to two digits.
pub open spec fn two_digits(n: int) -> Seq<char>
    recommends
        0 <= n < 100,
{
    seq![digit_char(n / 10), digit_char(n % 10)]
}

/// `n` in decimal, zero-padded to four digits.
pub open spec fn four_digits(n: int) -> Seq<char>
    recommends
        0 <= n < 10000,
{
    seq![
        digit_char(n / 1000 % 10),
        digit_char(n / 100 % 10),
        digit_char(n / 10 % 10),
        digit_char(n % 10),
    ]
}

/// A calendar date in the page's header form: `DD/MM/YYYY`.
pub open spec fn date_string(day: int, month: int, year: int) -> Seq<char>
    recommends
        0 <= day < 100,
        0 <= month < 100,
        0 <= year < 10000,
{
    two_digits(day) + seq!['/'] + two_digits(month) + seq!['/'] + four_digits(year)
}

/// Formats a date as the page's header cells format it: day and month
/// zero-padded to two digits, the year to four, separated by `/`.
pub fn format_date(day: u32, month: u32, year: u32) -> (r: String)
    requires
        day < 100,
        month < 100,
        year < 10000,
    ensures
        r@ == date_string(day as int, month as int, year as int),
{
    proof {
        reveal_strlit("/");
    }
    let mut r = String::new();
    r.append(digit_str(day / 10));
    r.append(digit_str(day % 10));
    r.append("/");
    r.append(digit_str(month / 10));
    r.append(digit_str(month % 10));
    r.append("/");
    r.append(digit_str(year / 1000 % 10));
    r.append(digit_str(year / 100 % 10));
    r.append(digit_str(year / 10 % 10));
    r.append(digit_str(year % 10));
    proof {
        assert(r@ =~= date_string(day as int, month as int, year as int));
    }
    r
}

/// The weekday name for a number of days since Monday, as chrono displays a
/// weekday.
pub open spec fn weekday_seq(w: int) -> Seq<char>
    recommends
        0 <= w < 7,
{
    if w == 0 {
        "Mon"@
    } else if w == 1 {
        "Tue"@
    } else if w == 2 {
        "Wed"@
    } else if w == 3 {
        "Thu"@
    } else if w == 4 {
        "Fri"@
    } else if w == 5 {
        "Sat"@
    } else {
        "Sun"@
    }
}

/// The weekday name for a number of days since Monday.
pub fn weekday_name(w: u8) -> (r: String)
    requires
        w < 7,
    ensures
        r@ == weekday_seq(w as int),
{
    match w {
        0 => "Mon".to_owned(),
        1 => "Tue".to_owned(),
        2 => "Wed".to_owned(),
        3 => "Thu".to_owned(),
        4 => "Fri".to_owned(),
        5 => "Sat".to_owned(),
        _ => "Sun".to_owned(),
    }
}

} // verus!
