//! Calendar dates, held as day numbers.
//!
//! A [`Date`] is the number of a day in the proleptic Gregorian calendar, with
//! 1 January of the year 1 as day 1. Order, distance and the day of the week
//! are arithmetic on that number.

use vstd::prelude::*;
use crate::calendar::{
    civil_day, civil_year, day_after, day_from_ymd, format_day, iso_text, parse_day, parsed_day,
    weekday_of_day, year_of_day,
};
use crate::error::FlexError;

verus! {

/// The number of the earliest day a [`Date`] can hold: 1 January -262143.
pub const MIN_DAY: i32 = -95_746_129;

/// The number of the latest day a [`Date`] can hold: 31 December 262142.
pub const MAX_DAY: i32 = 95_745_399;

/// A day of the week.
#[derive(Clone, Copy, Debug, PartialEq, Eq, Structural)]
pub enum Weekday {
    Mon,
    Tue,
    Wed,
    Thu,
    Fri,
    Sat,
    Sun,
}

/// The day of the week on which the day with the given number falls. Day 1 is
/// a Monday, and the week repeats every seven days in both directions.
pub open spec fn weekday_of(day: int) -> Weekday {
    let r = day % 7;
    if r == 1 {
        Weekday::Mon
    } else if r == 2 {
        Weekday::Tue
    } else if r == 3 {
        Weekday::Wed
    } else if r == 4 {
        Weekday::Thu
    } else if r == 5 {
        Weekday::Fri
    } else if r == 6 {
        Weekday::Sat
    } else {
        Weekday::Sun
    }
}

/// Whether the day with the given number is a weekday, Monday to Friday.
pub open spec fn is_weekday(day: int) -> bool {
    !(weekday_of(day) is Sat || weekday_of(day) is Sun)
}

/// A calendar date.
#[derive(Clone, Copy, Debug, PartialEq, Eq, Structural)]
pub struct Date {
    day: i32,
}

impl View for Date {
    type V = int;

    /// The date's day number.
    closed spec fn view(&self) -> int {
        self.day as int
    }
}

impl Date {
    /// Every date lies between the earliest and the latest day.
    #[verifier::type_invariant]
    pub open spec fn in_range(&self) -> bool {
        MIN_DAY <= self@ <= MAX_DAY
    }

    /// The date with the given day number, if there is one.
    pub fn from_day_number(day: i32) -> (r: Option<Date>)
        ensures
            r is Some <==> MIN_DAY <= day <= MAX_DAY,
            r matches Some(d) ==> d@ == day,
    {
        if MIN_DAY <= day && day <= MAX_DAY {
            Some(Date { day })
        } else {
            None
        }
    }

    /// The date's day number.
    pub fn day_number(&self) -> (day: i32)
        ensures
            day == self@,
            MIN_DAY <= day <= MAX_DAY,
    {
        proof {
            use_type_invariant(self);
        }
        self.day
    }

    /// The date with the given year, month and day of the month, if the
    /// calendar has one.
    pub fn from_ymd(year: i32, month: u32, day: u32) -> (r: Option<Date>)
        ensures
            r is Some <==> civil_day(year as int, month as int, day as int) is Some,
            r matches Some(d) ==> civil_day(year as int, month as int, day as int) == Some(d@),
    {
        match day_from_ymd(year, month, day) {
            Some(n) => Some(Date { day: n }),
            None => None,
        }
    }

    /// Reads a date written as `YYYY-MM-DD`. Text that names no date is an
    /// [`FlexError::InvalidDate`].
    pub fn parse(text: &str) -> (r: Result<Date, FlexError>)
        ensures
            match parsed_day(text@) {
                Some(day) => r matches Ok(d) && d@ == day,
                None => r == Err::<Date, FlexError>(FlexError::InvalidDate),
            },
    {
        match parse_day(text) {
            Ok(n) => Ok(Date { day: n }),
            Err(_) => Err(FlexError::InvalidDate),
        }
    }

    /// The date written as `YYYY-MM-DD`.
    pub fn to_iso_string(&self) -> (text: String)
        ensures
            text@ == iso_text(self@),
    {
        proof {
            use_type_invariant(self);
        }
        format_day(self.day)
    }

    /// The calendar year of the date.
    pub fn year(&self) -> (year: i32)
        ensures
            year == civil_year(self@),
    {
        proof {
            use_type_invariant(self);
        }
        year_of_day(self.day)
    }

    /// 1 January of the date's year.
    pub fn first_day_of_year(&self) -> (first: Date)
        ensures
            civil_day(civil_year(self@), 1, 1) == Some(first@),
            first@ <= self@,
    {
        proof {
            use_type_invariant(self);
        }
        let year = year_of_day(self.day);
        match day_from_ymd(year, 1, 1) {
            Some(n) => Date { day: n },
            // Not reached: the year of a date has its 1 January.
            None => *self,
        }
    }

    /// The day of the week on which the date falls.
    pub fn weekday(&self) -> (w: Weekday)
        ensures
            w == weekday_of(self@),
    {
        proof {
            use_type_invariant(self);
        }
        weekday_of_day(self.day)
    }

    /// Whether the date is a weekday, Monday to Friday.
    pub fn is_weekday(&self) -> (b: bool)
        ensures
            b == is_weekday(self@),
    {
        match self.weekday() {
            Weekday::Sat | Weekday::Sun => false,
            _ => true,
        }
    }

    /// The next date, if this is not the latest one.
    pub fn succ(&self) -> (r: Option<Date>)
        ensures
            r is Some <==> self@ < MAX_DAY,
            r matches Some(next) ==> next@ == self@ + 1,
    {
        proof {
            use_type_invariant(self);
        }
        match day_after(self.day) {
            Some(n) => Some(Date { day: n }),
            None => None,
        }
    }

    /// Whether this date comes before `other`.
    pub fn is_before(&self, other: &Date) -> (b: bool)
        ensures
            b == (self@ < other@),
    {
        self.day < other.day
    }

    /// Whether this date is `other` or comes before it.
    pub fn is_on_or_before(&self, other: &Date) -> (b: bool)
        ensures
            b == (self@ <= other@),
    {
        self.day <= other.day
    }
}

} // verus!
