//! Which range of dates to report on, given what was asked for and today's
//! date.
//!
//! The end asked for holds unless it lies in the future; then today takes its
//! place. The start asked for holds unless it lies after today or after the
//! end; then 1 January of today's year takes its place, as it does where no
//! start was asked for.

use vstd::prelude::*;
use crate::calendar::{civil_day, civil_year, parsed_day};
use crate::date::Date;
use crate::error::FlexError;

verus! {

/// The end of the range: the end asked for, unless there is none or it lies
/// after today.
pub open spec fn chosen_end(today: int, end: Option<int>) -> int {
    match end {
        Some(asked) => if asked <= today {
            asked
        } else {
            today
        },
        None => today,
    }
}

/// Whether an end was asked for and had to give way to today.
pub open spec fn end_gave_way(today: int, end: Option<int>) -> bool {
    end matches Some(asked) && asked > today
}

/// Whether the start asked for can stand: it is neither after today nor
/// after the end of the range.
pub open spec fn start_stands(today: int, end: int, asked: int) -> bool {
    asked <= today && asked <= end
}

/// The start of the range, where `end` is its end: the start asked for if it
/// can stand, else the first day of the year.
pub open spec fn chosen_start(today: int, year_start: int, end: int, start: Option<int>) -> int {
    match start {
        Some(asked) => if start_stands(today, end, asked) {
            asked
        } else {
            year_start
        },
        None => year_start,
    }
}

/// Whether a start was asked for and had to give way to the first day of the
/// year.
pub open spec fn start_gave_way(today: int, end: int, start: Option<int>) -> bool {
    start matches Some(asked) && !start_stands(today, end, asked)
}

/// The day number of a date that may be absent.
pub open spec fn day_of(date: Option<Date>) -> Option<int> {
    match date {
        Some(d) => Some(d@),
        None => None,
    }
}

/// The day number of 1 January of the year in which `day` falls.
pub open spec fn year_start_of(day: int) -> int {
    civil_day(civil_year(day), 1, 1).unwrap()
}

/// Whether an argument, where given, is text that names a date.
pub open spec fn argument_is_date(arg: Option<&str>) -> bool {
    arg matches Some(text) ==> parsed_day(text@) is Some
}

/// The day number that an argument names, if it is given and names one.
pub open spec fn argument_day(arg: Option<&str>) -> Option<int> {
    match arg {
        Some(text) => parsed_day(text@),
        None => None,
    }
}

/// The range to report on, and what had to be changed to arrive at it.
#[derive(Clone, Copy, Debug)]
pub struct ResolvedRange {
    /// The first day of the range.
    pub start: Date,
    /// The end of the range.
    pub end: Date,
    /// The end asked for lay in the future, and today took its place.
    pub end_gave_way: bool,
    /// The start asked for lay after today or after the end, and 1 January
    /// took its place.
    pub start_gave_way: bool,
}

/// Chooses the range from the dates asked for, today's date and the first day
/// of today's year.
pub fn decide_range(today: Date, year_start: Date, start: Option<Date>, end: Option<Date>) -> (range:
    ResolvedRange)
    ensures
        range.end@ == chosen_end(today@, day_of(end)),
        range.end_gave_way == end_gave_way(today@, day_of(end)),
        range.start@ == chosen_start(today@, year_start@, range.end@, day_of(start)),
        range.start_gave_way == start_gave_way(today@, range.end@, day_of(start)),
{
    let (end_date, end_gave_way) = match end {
        None => (today, false),
        Some(asked) => if asked.is_on_or_before(&today) {
            (asked, false)
        } else {
            (today, true)
        },
    };
    let (start_date, start_gave_way) = match start {
        None => (year_start, false),
        Some(asked) => if asked.is_on_or_before(&today) && asked.is_on_or_before(&end_date) {
            (asked, false)
        } else {
            (year_start, true)
        },
    };
    ResolvedRange { start: start_date, end: end_date, end_gave_way, start_gave_way }
}

/// Reads the dates asked for and chooses the range. An argument that is given
/// but names no date is an [`FlexError::InvalidDate`]; otherwise a range
/// always results.
pub fn resolve_range(today: Date, start_arg: Option<&str>, end_arg: Option<&str>) -> (r: Result<
    ResolvedRange,
    FlexError,
>)
    ensures
        argument_is_date(start_arg) && argument_is_date(end_arg) ==> {
            &&& r matches Ok(range)
            &&& range.end@ == chosen_end(today@, argument_day(end_arg))
            &&& range.end_gave_way == end_gave_way(today@, argument_day(end_arg))
            &&& range.start@ == chosen_start(
                today@,
                year_start_of(today@),
                range.end@,
                argument_day(start_arg),
            )
            &&& range.start_gave_way == start_gave_way(today@, range.end@, argument_day(start_arg))
            &&& range.start@ <= today@
            &&& range.end@ <= today@
        },
        !(argument_is_date(start_arg) && argument_is_date(end_arg)) ==> r == Err::<
            ResolvedRange,
            FlexError,
        >(FlexError::InvalidDate),
{
    let end = match end_arg {
        None => None,
        Some(text) => match Date::parse(text) {
            Ok(date) => Some(date),
            Err(e) => {
                return Err(e);
            },
        },
    };
    let start = match start_arg {
        None => None,
        Some(text) => match Date::parse(text) {
            Ok(date) => Some(date),
            Err(e) => {
                return Err(e);
            },
        },
    };
    Ok(decide_range(today, today.first_day_of_year(), start, end))
}

/// An end asked for that lies after today gives way to today, and is marked
/// as having done so.
pub proof fn lemma_future_end_gives_way(today: int, asked: int)
    requires
        asked > today,
    ensures
        chosen_end(today, Some(asked)) == today,
        end_gave_way(today, Some(asked)),
{
}

/// A start asked for that lies after the end of the range gives way to the
/// first day of the year, and is marked as having done so.
pub proof fn lemma_late_start_gives_way(today: int, year_start: int, end: int, asked: int)
    requires
        asked > end,
    ensures
        chosen_start(today, year_start, end, Some(asked)) == year_start,
        start_gave_way(today, end, Some(asked)),
{
}

/// The range chosen never reaches past today: its end is today or earlier,
/// and so is its start, the first day of the year being no later than today.
pub proof fn lemma_range_within_today(
    today: int,
    year_start: int,
    start: Option<int>,
    end: Option<int>,
)
    requires
        year_start <= today,
    ensures
        chosen_end(today, end) <= today,
        chosen_start(today, year_start, chosen_end(today, end), start) <= today,
{
}

/// The start chosen is no later than the end chosen, unless it is the first
/// day of the year and the end asked for lies before that day.
pub proof fn lemma_start_not_after_end(
    today: int,
    year_start: int,
    start: Option<int>,
    end: Option<int>,
)
    requires
        year_start <= today,
    ensures
        ({
            let e = chosen_end(today, end);
            let s = chosen_start(today, year_start, e, start);
            s <= e || (s == year_start && (end matches Some(asked) && asked < year_start))
        }),
{
}

} // verus!
