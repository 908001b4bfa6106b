//! The address of the timetable service for a group and a date.
use vstd::prelude::*;
use crate::text::{decimal_nat, digit_char};

verus! {

/// The earliest year that `chrono::NaiveDate` represents.
pub open spec fn min_calendar_year() -> int {
    -262143
}

/// The latest year that `chrono::NaiveDate` represents.
pub open spec fn max_calendar_year() -> int {
    262142
}

/// A leap year of the proleptic Gregorian calendar.
pub open spec fn is_leap_year(year: int) -> bool {
    year % 4 == 0 && (year % 100 != 0 || year % 400 == 0)
}

/// The number of days of `month` (1 to 12) in `year`.
pub open spec fn days_in_month(year: int, month: int) -> int {
    if month == 2 {
        if is_leap_year(year) {
            29
        } else {
            28
        }
    } else if month == 4 || month == 6 || month == 9 || month == 11 {
        30
    } else {
        31
    }
}

/// `year-month-day` is a date of the proleptic Gregorian calendar in chrono's range.
pub open spec fn valid_date(year: i32, month: u32, day: u32) -> bool {
    &&& min_calendar_year() <= year <= max_calendar_year()
    &&& 1 <= month <= 12
    &&& 1 <= day <= days_in_month(year as int, month as int)
}

/// The decimal digits of `n`, with zeros in front up to `width` characters.
pub open spec fn zero_padded(n: nat, width: nat) -> Seq<char> {
    let digits = decimal_nat(n);
    if digits.len() >= width {
        digits
    } else {
        Seq::new((width - digits.len()) as nat, |i: int| '0') + digits
    }
}

/// A number below 100 as two digits.
pub open spec fn two_digits(n: nat) -> Seq<char> {
    seq![digit_char((n / 10) as int), digit_char((n % 10) as int)]
}

/// A year as `%Y` writes it: four digits at least, and a sign outside 0 to 9999.
pub open spec fn year_text(year: int) -> Seq<char> {
    if 0 <= year <= 9999 {
        zero_padded(year as nat, 4)
    } else if year < 0 {
        seq!['-'] + zero_padded((-year) as nat, 4)
    } else {
        seq!['+'] + zero_padded(year as nat, 4)
    }
}

/// A date as `%Y-%m-%d` writes it.
pub open spec fn iso_date(year: int, month: nat, day: nat) -> Seq<char> {
    year_text(year) + seq!['-'] + two_digits(month) + seq!['-'] + two_digits(day)
}

/// The text of the URL that `reqwest::Url::parse` makes of `text`, or none where it
/// refuses `text`.
pub uninterp spec fn url_parse_result(text: Seq<char>) -> Option<Seq<char>>;

/// Calls `chrono::NaiveDate::from_ymd_opt` and formats the date with `%Y-%m-%d`.
/// Claimed: there is a date exactly when `year-month-day` exists in chrono's calendar, and
/// its text is the zero-padded year (signed outside 0 to 9999), month and day joined by `-`.
#[verifier::external_body]
fn format_date(year: i32, month: u32, day: u32) -> (r: Option<String>)
    ensures
        r is Some <==> valid_date(year, month, day),
        r matches Some(s) ==> s@ == iso_date(year as int, month as nat, day as nat),
{
    match chrono::NaiveDate::from_ymd_opt(year, month, day) {
        Some(date) => Some(date.format("%Y-%m-%d").to_string()),
        None => None,
    }
}

/// Calls `reqwest::Url::parse` and gives back the parsed URL's text (`Url::as_str`).
/// Claimed: the result is [`url_parse_result`] of the argument; nothing is said of which
/// texts the parser accepts or how it normalises them.
#[verifier::external_body]
fn parse_url(text: &str) -> (r: Option<String>)
    ensures
        match r {
            Some(u) => url_parse_result(text@) == Some(u@),
            None => url_parse_result(text@) is None,
        },
{
    match reqwest::Url::parse(text) {
        Ok(url) => Some(url.as_str().to_string()),
        Err(_) => None,
    }
}

/// The base address of the timetable service.
pub open spec fn scheduler_base() -> Seq<char> {
    "http://ruz2.spbstu.ru/api/v1/ruz/scheduler/"@
}

/// The address that asks for the timetable of group `link` for the week of `date`.
pub open spec fn schedule_address(link: Seq<char>, date: Seq<char>) -> Seq<char> {
    scheduler_base() + link + "?date="@ + date
}

/// The URL that asks the timetable service for the week of `year-month-day` of group
/// `link`; none when the date does not exist or the URL parser refuses the address.
pub fn schedule_url(link: &str, year: i32, month: u32, day: u32) -> (r: Option<String>)
    ensures
        match r {
            Some(u) => valid_date(year, month, day) && url_parse_result(
                schedule_address(link@, iso_date(year as int, month as nat, day as nat)),
            ) == Some(u@),
            None => !valid_date(year, month, day) || url_parse_result(
                schedule_address(link@, iso_date(year as int, month as nat, day as nat)),
            ) is None,
        },
{
    let date = match format_date(year, month, day) {
        Some(d) => d,
        None => return None,
    };
    let mut address = String::from_str("http://ruz2.spbstu.ru/api/v1/ruz/scheduler/");
    address.append(link);
    address.append("?date=");
    address.append(date.as_str());
    assert(address@ =~= schedule_address(link@, iso_date(year as int, month as nat, day as nat)));
    parse_url(address.as_str())
}

} // verus!
