//! The flex balance: the hours logged less the hours expected, and on which
//! side of nothing it stands.

use vstd::prelude::*;
use crate::date::{Date, MAX_DAY};
use crate::calendar::iso_text;
use crate::entries::{
    all_complete, end_after_entries, lemma_total_hours_bounds, tally, total_hours, Fetched,
};
use crate::error::FlexError;
use crate::weekdays::{expected_hours, expected_hours_between};

verus! {

/// The hours of a working day where nothing else is configured: seven and a
/// half, in hundredths of an hour.
pub const DEFAULT_HOURS_PER_DAY: i32 = 750;

/// What the user has set as the hours of a working day.
#[derive(Clone, Copy, Debug, PartialEq, Eq, Structural)]
pub enum Setting {
    /// Nothing is set.
    Missing,
    /// Something is set that is not a number.
    Unreadable,
    /// An amount is set, in hundredths of an hour.
    Amount(i32),
}

/// How many hours a weekday calls for.
#[derive(Clone, Copy, Debug)]
pub struct Config {
    hours_per_day: i32,
}

impl View for Config {
    type V = int;

    /// The hours per day, in hundredths of an hour.
    closed spec fn view(&self) -> int {
        self.hours_per_day as int
    }
}

impl Config {
    /// The hours per day are a positive amount.
    #[verifier::type_invariant]
    pub open spec fn is_positive(&self) -> bool {
        0 < self@ <= i32::MAX
    }

    /// A configuration with the given hours per day, in hundredths of an
    /// hour. An amount that is not positive is an
    /// [`FlexError::InvalidConfig`].
    pub fn new(hours_per_day: i32) -> (r: Result<Config, FlexError>)
        ensures
            hours_per_day > 0 ==> (r matches Ok(config) && config@ == hours_per_day),
            hours_per_day <= 0 ==> r == Err::<Config, FlexError>(FlexError::InvalidConfig),
    {
        if hours_per_day > 0 {
            Ok(Config { hours_per_day })
        } else {
            Err(FlexError::InvalidConfig)
        }
    }

    /// The configuration that a setting gives: the default where none is
    /// made, the amount set where it is positive, and an
    /// [`FlexError::InvalidConfig`] where the setting is no number or no
    /// positive one.
    pub fn from_setting(setting: Setting) -> (r: Result<Config, FlexError>)
        ensures
            match setting {
                Setting::Missing => r matches Ok(config) && config@ == DEFAULT_HOURS_PER_DAY,
                Setting::Unreadable => r == Err::<Config, FlexError>(FlexError::InvalidConfig),
                Setting::Amount(hours_per_day) => if hours_per_day > 0 {
                    r matches Ok(config) && config@ == hours_per_day
                } else {
                    r == Err::<Config, FlexError>(FlexError::InvalidConfig)
                },
            },
    {
        match setting {
            Setting::Missing => Ok(Config::default()),
            Setting::Unreadable => Err(FlexError::InvalidConfig),
            Setting::Amount(hours_per_day) => Config::new(hours_per_day),
        }
    }

    /// The hours per day, in hundredths of an hour.
    pub fn hours_per_day(&self) -> (hours: i32)
        ensures
            hours == self@,
            hours > 0,
    {
        proof {
            use_type_invariant(self);
        }
        self.hours_per_day
    }
}

impl Default for Config {
    /// Seven and a half hours per day.
    fn default() -> (config: Config)
        ensures
            config@ == DEFAULT_HOURS_PER_DAY,
    {
        Config { hours_per_day: DEFAULT_HOURS_PER_DAY }
    }
}

/// On which side of the expected hours the logged hours stand.
#[derive(Clone, Copy, Debug, PartialEq, Eq, Structural)]
pub enum Standing {
    /// As many hours as expected, or more.
    Above,
    /// Fewer hours than expected.
    Below,
}

/// The standing of a balance: above from nothing upwards, below otherwise.
pub open spec fn standing_of(balance: int) -> Standing {
    if balance >= 0 {
        Standing::Above
    } else {
        Standing::Below
    }
}

/// The colour in which a balance is shown.
#[derive(Clone, Copy, Debug, PartialEq, Eq, Structural)]
pub enum Colour {
    Green,
    Red,
}

/// The colour of a standing: green above, red below.
pub open spec fn colour_of(standing: Standing) -> Colour {
    match standing {
        Standing::Above => Colour::Green,
        Standing::Below => Colour::Red,
    }
}

/// The word that a standing is reported with.
pub open spec fn wording_of(standing: Standing) -> Seq<char> {
    match standing {
        Standing::Above => "above"@,
        Standing::Below => "below"@,
    }
}

impl Standing {
    /// The standing of a balance.
    pub fn of(balance: i128) -> (standing: Standing)
        ensures
            standing == standing_of(balance as int),
    {
        if balance >= 0 {
            Standing::Above
        } else {
            Standing::Below
        }
    }

    /// The word that the standing is reported with.
    pub fn wording(&self) -> (word: &'static str)
        ensures
            word@ == wording_of(*self),
    {
        match self {
            Standing::Above => "above",
            Standing::Below => "below",
        }
    }

    /// The colour in which the standing is shown.
    pub fn colour(&self) -> (colour: Colour)
        ensures
            colour == colour_of(*self),
    {
        match self {
            Standing::Above => Colour::Green,
            Standing::Below => Colour::Red,
        }
    }

    /// The line that reports a balance: the amount as the caller has written
    /// it, then the fixed words.
    pub fn line(&self, amount: &str) -> (line: String)
        ensures
            line@ == amount@ + " hour(s) "@ + wording_of(*self) + " expected"@,
    {
        let mut line = String::from_str(amount);
        line.append(" hour(s) ");
        line.append(self.wording());
        line.append(" expected");
        line
    }
}

/// The flex balance: the hours logged less the hours expected.
pub fn flex_balance(actual: i128, expected: i64) -> (balance: i128)
    requires
        i128::MIN <= actual - expected <= i128::MAX,
    ensures
        balance == actual - expected,
{
    actual - expected as i128
}

/// What is reported of a range: its bounds and its hours, all amounts in
/// hundredths of an hour.
#[derive(Clone, Copy, Debug)]
pub struct Report {
    /// The first day of the range.
    pub start: Date,
    /// The end of the range, moved on past the days that hold entries.
    pub end: Date,
    /// The hours that the weekdays of the range call for.
    pub expected_hours: i64,
    /// The hours logged.
    pub actual_hours: i128,
    /// The hours logged less the hours expected.
    pub balance: i128,
    /// On which side of the expected hours the logged hours stand.
    pub standing: Standing,
}

impl Report {
    /// The line that names the range.
    pub fn range_line(&self) -> (line: String)
        ensures
            line@ == "Start date: "@ + iso_text(self.start@) + " - End date: "@ + iso_text(
                self.end@,
            ),
    {
        let mut line = String::from_str("Start date: ");
        line.append(self.start.to_iso_string().as_str());
        line.append(" - End date: ");
        line.append(self.end.to_iso_string().as_str());
        line
    }

    /// The line that gives the hours expected, the amount as the caller has
    /// written it.
    pub fn expected_line(amount: &str) -> (line: String)
        ensures
            line@ == "Expected hours: "@ + amount@,
    {
        let mut line = String::from_str("Expected hours: ");
        line.append(amount);
        line
    }

    /// The line that gives the hours logged, the amount as the caller has
    /// written it.
    pub fn actual_line(amount: &str) -> (line: String)
        ensures
            line@ == "Actual hours: "@ + amount@,
    {
        let mut line = String::from_str("Actual hours: ");
        line.append(amount);
        line
    }

    /// The line that reports the balance, the amount as the caller has
    /// written it.
    pub fn balance_line(&self, amount: &str) -> (line: String)
        ensures
            line@ == amount@ + " hour(s) "@ + wording_of(self.standing) + " expected"@,
    {
        self.standing.line(amount)
    }
}

/// Reports on the range from `start` to `end`, given what the tracking
/// service returned for it: the end moves on past the days that hold entries,
/// the weekdays from the start up to that end give the hours expected, and
/// the entries give the hours logged. A request that failed is an
/// [`FlexError::NetworkFailure`], an entry without its date or its hours an
/// [`FlexError::IncompleteEntry`].
///
/// The end needs room to move: a day for each entry before the latest date.
pub fn flex_report(start: Date, end: Date, fetched: &Fetched, config: &Config) -> (r: Result<
    Report,
    FlexError,
>)
    requires
        fetched matches Fetched::Entries(entries) ==> end@ + entries.len() <= MAX_DAY,
    ensures
        match *fetched {
            Fetched::Failed => r == Err::<Report, FlexError>(FlexError::NetworkFailure),
            Fetched::Entries(entries) => if all_complete(entries@) {
                &&& r matches Ok(report)
                &&& report.start@ == start@
                &&& report.end@ == end_after_entries(end@, entries@)
                &&& report.expected_hours == expected_hours_between(start@, report.end@, config@)
                &&& report.actual_hours == total_hours(entries@)
                &&& report.balance == report.actual_hours - report.expected_hours
                &&& report.standing == standing_of(report.balance as int)
            } else {
                r == Err::<Report, FlexError>(FlexError::IncompleteEntry)
            },
        },
{
    let entries = match fetched {
        Fetched::Entries(entries) => entries,
        Fetched::Failed => {
            return Err(FlexError::NetworkFailure);
        },
    };
    let t = match tally(end, entries) {
        Ok(t) => t,
        Err(e) => {
            return Err(e);
        },
    };
    let expected = expected_hours(start, t.end, config.hours_per_day());
    proof {
        lemma_total_hours_bounds(entries@);
    }
    let balance = flex_balance(t.hours, expected);
    Ok(
        Report {
            start,
            end: t.end,
            expected_hours: expected,
            actual_hours: t.hours,
            balance,
            standing: Standing::of(balance),
        },
    )
}

} // verus!
