//! The ways in which a flex balance can fail to be computed.

use vstd::prelude::*;

verus! {

/// Why no balance could be given.
#[derive(Clone, Copy, Debug, PartialEq, Eq, Structural)]
pub enum FlexError {
    /// A date argument is not a calendar date written as `YYYY-MM-DD`.
    InvalidDate,
    /// The configured hours per day are not a positive amount.
    InvalidConfig,
    /// The time-tracking service could not be asked, or refused the request.
    NetworkFailure,
    /// A time entry lacks its date or its hours.
    IncompleteEntry,
}

impl FlexError {
    /// A one-line description for a diagnostic.
    pub fn message(&self) -> (text: &'static str)
        ensures
            text@ == match *self {
                FlexError::InvalidDate => "invalid date: expected YYYY-MM-DD"@,
                FlexError::InvalidConfig => "hours per day must be a positive number"@,
                FlexError::NetworkFailure => "the time entries could not be fetched"@,
                FlexError::IncompleteEntry => "a time entry lacks its date or its hours"@,
            },
    {
        match self {
            FlexError::InvalidDate => "invalid date: expected YYYY-MM-DD",
            FlexError::InvalidConfig => "hours per day must be a positive number",
            FlexError::NetworkFailure => "the time entries could not be fetched",
            FlexError::IncompleteEntry => "a time entry lacks its date or its hours",
        }
    }
}

} // verus!
