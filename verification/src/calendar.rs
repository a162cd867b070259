//! What this library has from chrono's calendar.
//!
//! Nothing in this file is proved. Each function below puts one function of
//! chrono to work on day numbers, which chrono counts as this library does,
//! and its contract says what is taken on trust about that function.

use vstd::prelude::*;
use chrono::Datelike;
use chrono::NaiveDate;
use crate::date::{weekday_of, Weekday, MAX_DAY, MIN_DAY};

verus! {

/// chrono's error for text that is not a date. Nothing is known of its content.
#[verifier::external_type_specification]
#[verifier::external_body]
pub struct ExParseError(chrono::ParseError);

/// The day number of the date that chrono reads from `text`, or `None` where
/// chrono rejects the text.
pub uninterp spec fn parsed_day(text: Seq<char>) -> Option<int>;

/// The text that chrono writes for the day with the given number, in the
/// form `%Y-%m-%d`.
pub uninterp spec fn iso_text(day: int) -> Seq<char>;

/// The day number of the date with the given year, month and day of the
/// month, or `None` where chrono has no such date.
pub uninterp spec fn civil_day(year: int, month: int, day: int) -> Option<int>;

/// The calendar year in which the day with the given number falls.
pub uninterp spec fn civil_year(day: int) -> int;

/// `<NaiveDate as FromStr>::from_str`: reads a date written as year, month
/// and day with `-` between them. The contract names the outcome and claims
/// that it depends on the text alone, and that a date chrono accepts has a
/// day number within chrono's range.
#[verifier::external_body]
pub(crate) fn parse_day(text: &str) -> (r: Result<i32, chrono::ParseError>)
    ensures
        r is Ok <==> parsed_day(text@) is Some,
        r matches Ok(day) ==> parsed_day(text@) == Some(day as int) && MIN_DAY <= day <= MAX_DAY,
{
    match <NaiveDate as std::str::FromStr>::from_str(text) {
        Ok(date) => Ok(date.num_days_from_ce()),
        Err(e) => Err(e),
    }
}

/// `NaiveDate::format` with `%Y-%m-%d`. The contract names the text and
/// claims that it depends on the day alone.
#[verifier::external_body]
pub(crate) fn format_day(day: i32) -> (text: String)
    requires
        MIN_DAY <= day <= MAX_DAY,
    ensures
        text@ == iso_text(day as int),
{
    NaiveDate::from_num_days_from_ce_opt(day).unwrap().format("%Y-%m-%d").to_string()
}

/// `NaiveDate::from_ymd_opt`. The contract names the outcome and claims that
/// a date chrono makes has a day number within chrono's range.
#[verifier::external_body]
pub(crate) fn day_from_ymd(year: i32, month: u32, day: u32) -> (r: Option<i32>)
    ensures
        r is Some <==> civil_day(year as int, month as int, day as int) is Some,
        r matches Some(n) ==> civil_day(year as int, month as int, day as int) == Some(n as int)
            && MIN_DAY <= n <= MAX_DAY,
{
    NaiveDate::from_ymd_opt(year, month, day).map(|date| date.num_days_from_ce())
}

/// Whether 1 January of `year` is a date, and no later than the day numbered
/// `day`.
pub open spec fn first_of_year_precedes(year: int, day: int) -> bool {
    civil_day(year, 1, 1) matches Some(first) && MIN_DAY <= first <= day
}

/// `Datelike::year` on a `NaiveDate`. The contract names the year and claims
/// that 1 January of that year is a date, and no later than the day itself.
#[verifier::external_body]
pub(crate) fn year_of_day(day: i32) -> (year: i32)
    requires
        MIN_DAY <= day <= MAX_DAY,
    ensures
        year == civil_year(day as int),
        first_of_year_precedes(year as int, day as int),
{
    NaiveDate::from_num_days_from_ce_opt(day).unwrap().year()
}

/// `Datelike::weekday` on a `NaiveDate`. The contract claims that chrono's
/// week follows the day numbers: day 1, which is 1 January of the year 1, is
/// a Monday in chrono's calendar, and each next day is the next day of the
/// week.
#[verifier::external_body]
pub(crate) fn weekday_of_day(day: i32) -> (w: Weekday)
    requires
        MIN_DAY <= day <= MAX_DAY,
    ensures
        w == weekday_of(day as int),
{
    match NaiveDate::from_num_days_from_ce_opt(day).unwrap().weekday() {
        chrono::Weekday::Mon => Weekday::Mon,
        chrono::Weekday::Tue => Weekday::Tue,
        chrono::Weekday::Wed => Weekday::Wed,
        chrono::Weekday::Thu => Weekday::Thu,
        chrono::Weekday::Fri => Weekday::Fri,
        chrono::Weekday::Sat => Weekday::Sat,
        chrono::Weekday::Sun => Weekday::Sun,
    }
}

/// `NaiveDate::succ_opt`. The contract claims that the next date has the next
/// day number, and that only the latest date has no next one.
#[verifier::external_body]
pub(crate) fn day_after(day: i32) -> (r: Option<i32>)
    requires
        MIN_DAY <= day <= MAX_DAY,
    ensures
        r is Some <==> day < MAX_DAY,
        r matches Some(next) ==> next == day + 1,
{
    NaiveDate::from_num_days_from_ce_opt(day).unwrap().succ_opt().map(|date| date.num_days_from_ce())
}

} // verus!
