//! Time entries as the tracking service hands them out, and what a report
//! takes from them: the hours logged, and an end of the range that includes
//! the days on which hours were logged.

use vstd::prelude::*;
use crate::calendar::iso_text;
use crate::date::{Date, MAX_DAY};
use crate::error::FlexError;

verus! {

/// One logged record. The service may leave either field out.
#[derive(Clone, Debug)]
pub struct TimeEntry {
    /// The day the time was spent on, written as `YYYY-MM-DD`.
    pub spent_date: Option<String>,
    /// The time spent, in hundredths of an hour.
    pub hours: Option<i32>,
}

/// What came of asking the tracking service for the entries of a range.
#[derive(Clone, Debug)]
pub enum Fetched {
    /// The entries of the range.
    Entries(Vec<TimeEntry>),
    /// The service could not be asked, or refused the request.
    Failed,
}

/// What the entries of a range add up to.
#[derive(Clone, Copy, Debug)]
pub struct Tally {
    /// The hours logged, in hundredths of an hour.
    pub hours: i128,
    /// The end of the range, moved on past the days that hold entries.
    pub end: Date,
}

/// Whether an entry has both its date and its hours.
pub open spec fn is_complete(entry: TimeEntry) -> bool {
    entry.spent_date is Some && entry.hours is Some
}

/// Whether every entry has both its date and its hours.
pub open spec fn all_complete(entries: Seq<TimeEntry>) -> bool {
    forall|i: int| 0 <= i < entries.len() ==> is_complete(#[trigger] entries[i])
}

/// The hours of one entry; none where the entry does not say.
pub open spec fn hours_of(entry: TimeEntry) -> int {
    match entry.hours {
        Some(hours) => hours as int,
        None => 0,
    }
}

/// The sum of the hours of all entries.
pub open spec fn total_hours(entries: Seq<TimeEntry>) -> int
    decreases entries.len(),
{
    if entries.len() == 0 {
        0
    } else {
        total_hours(entries.drop_last()) + hours_of(entries.last())
    }
}

/// The hours of the entries, each within the 32 bits of its own amount, add
/// up to no more than that many times their number.
pub proof fn lemma_total_hours_bounds(entries: Seq<TimeEntry>)
    ensures
        -0x8000_0000 * entries.len() <= total_hours(entries) <= 0x8000_0000 * entries.len(),
    decreases entries.len(),
{
    if entries.len() > 0 {
        lemma_total_hours_bounds(entries.drop_last());
    }
}

/// Whether an entry is dated on the day numbered `day`: its date is the text
/// that stands for that day.
pub open spec fn is_dated(entry: TimeEntry, day: int) -> bool {
    entry.spent_date matches Some(text) && text@ == iso_text(day)
}

/// The end of the range after one entry has been seen: an entry dated on the
/// end itself moves the end on by a day, so that the day is counted.
pub open spec fn end_after_entry(end: int, entry: TimeEntry) -> int {
    if is_dated(entry, end) {
        end + 1
    } else {
        end
    }
}

/// The end of the range after the entries have been seen in turn, each
/// against the end as the entries before it left it.
pub open spec fn end_after_entries(end: int, entries: Seq<TimeEntry>) -> int
    decreases entries.len(),
{
    if entries.len() == 0 {
        end
    } else {
        end_after_entry(end_after_entries(end, entries.drop_last()), entries.last())
    }
}

/// Adds up the hours of the entries and moves the end of the range past the
/// days that hold entries. An entry without its date or its hours is an
/// [`FlexError::IncompleteEntry`].
///
/// The end needs room to move: a day for each entry before the latest date.
pub fn tally(end: Date, entries: &Vec<TimeEntry>) -> (r: Result<Tally, FlexError>)
    requires
        end@ + entries.len() <= MAX_DAY,
    ensures
        all_complete(entries@) ==> {
            &&& r matches Ok(t)
            &&& t.hours == total_hours(entries@)
            &&& t.end@ == end_after_entries(end@, entries@)
        },
        !all_complete(entries@) ==> r == Err::<Tally, FlexError>(FlexError::IncompleteEntry),
{
    let mut hours: i128 = 0;
    let mut current = end;
    let mut current_text = end.to_iso_string();
    let mut i: usize = 0;
    while i < entries.len()
        invariant
            0 <= i <= entries.len(),
            end@ + entries.len() <= MAX_DAY,
            all_complete(entries@.take(i as int)),
            hours == total_hours(entries@.take(i as int)),
            -0x8000_0000 * i <= hours <= 0x8000_0000 * i,
            current@ == end_after_entries(end@, entries@.take(i as int)),
            current@ <= end@ + i,
            current_text@ == iso_text(current@),
        decreases entries.len() - i,
    {
        let entry = &entries[i];
        proof {
            // The entries seen after this one are those seen so far and this one.
            assert(entries@.take(i as int + 1).drop_last() == entries@.take(i as int));
        }
        match (&entry.spent_date, entry.hours) {
            (Some(spent), Some(entry_hours)) => {
                if *spent == current_text {
                    // The end has room to move, so it has a next day.
                    current = current.succ().unwrap();
                    current_text = current.to_iso_string();
                }
                hours = hours + entry_hours as i128;
            },
            _ => {
                return Err(FlexError::IncompleteEntry);
            },
        }
        i = i + 1;
    }
    // All entries have been seen.
    assert(entries@.take(i as int) == entries@);
    Ok(Tally { hours, end: current })
}

} // verus!
