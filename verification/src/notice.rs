//! Remarks for the user where the report is not on what was asked for.

use vstd::prelude::*;

verus! {

/// Something that was settled otherwise than asked.
#[derive(Clone, Copy, Debug, PartialEq, Eq, Structural)]
pub enum Notice {
    /// The end asked for lay in the future, and today took its place.
    EndInFuture,
    /// The start asked for lay after today or after the end, and 1 January
    /// took its place.
    StartAfterEnd,
    /// No hours per day were configured, and the default took their place.
    HoursPerDayMissing,
}

impl Notice {
    /// The remark in words.
    pub fn text(&self) -> (text: &'static str)
        ensures
            text@ == match *self {
                Notice::EndInFuture => "Changing end date to today, as provided date is in the future."@,
                Notice::StartAfterEnd => "Provided start date is after the end date. Setting start date to January 1st."@,
                Notice::HoursPerDayMissing => "Hours per day not found. Using 7.5"@,
            },
    {
        match self {
            Notice::EndInFuture => "Changing end date to today, as provided date is in the future.",
            Notice::StartAfterEnd => "Provided start date is after the end date. Setting start date to January 1st.",
            Notice::HoursPerDayMissing => "Hours per day not found. Using 7.5",
        }
    }
}

} // verus!
