//! Flex balance: the hours logged over a range of dates, set against the hours
//! that the working days of that range call for.
//!
//! Dates are day numbers of the proleptic Gregorian calendar; the calendar
//! itself (years, months, text) is chrono's. Amounts of time are whole
//! hundredths of an hour, so that every sum and product here is exact.

pub mod error;
pub mod notice;
pub mod calendar;
pub mod date;
pub mod weekdays;
pub mod range;
pub mod entries;
pub mod balance;
