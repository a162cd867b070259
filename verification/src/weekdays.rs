//! Weekdays in a range of dates, and the hours they call for.
//!
//! A range runs from its start up to, but not including, its end.

use vstd::prelude::*;
use crate::date::{is_weekday, Date, MAX_DAY, MIN_DAY};

verus! {

/// The number of weekdays among the days numbered `start`, `start + 1`, and
/// so on up to `end - 1`. A range that ends at or before its start holds none.
pub open spec fn weekdays_between(start: int, end: int) -> nat
    decreases end - start,
{
    if start >= end {
        0
    } else {
        weekdays_between(start, end - 1) + if is_weekday(end - 1) {
            1nat
        } else {
            0nat
        }
    }
}

/// The hours expected over the days from `start` up to `end`, at
/// `hours_per_day` for each weekday among them.
pub open spec fn expected_hours_between(start: int, end: int, hours_per_day: int) -> int {
    weekdays_between(start, end) * hours_per_day
}

/// Counts the weekdays from `start` up to, but not including, `end`.
pub fn count_weekdays(start: Date, end: Date) -> (count: u32)
    ensures
        count == weekdays_between(start@, end@),
        count <= MAX_DAY - MIN_DAY,
{
    proof {
        use_type_invariant(start);
        use_type_invariant(end);
    }
    let mut current = start;
    let mut count: u32 = 0;
    while current.is_before(&end)
        invariant
            MIN_DAY <= start@ <= current@ <= MAX_DAY,
            end@ <= MAX_DAY,
            current@ <= end@ || current@ == start@,
            count == weekdays_between(start@, current@),
            count <= current@ - start@,
        decreases end@ - current@,
    {
        if current.is_weekday() {
            count = count + 1;
        }
        // A date before `end` is not the latest one, so it has a next.
        current = current.succ().unwrap();
    }
    count
}

/// The hours expected from `start` up to, but not including, `end`:
/// `hours_per_day` for each weekday.
pub fn expected_hours(start: Date, end: Date, hours_per_day: i32) -> (hours: i64)
    ensures
        hours == expected_hours_between(start@, end@, hours_per_day as int),
{
    let count = count_weekdays(start, end);
    assert(-0x4000_0000_0000_0000 <= count * hours_per_day <= 0x4000_0000_0000_0000)
        by (nonlinear_arith)
        requires
            0 <= count <= 0x1000_0000,
            -0x8000_0000 <= hours_per_day <= 0x8000_0000,
    ;
    (count as i64) * (hours_per_day as i64)
}

/// Where every day from `start` up to `end` is a weekday, the range holds as
/// many weekdays as days, and the hours expected are the hours of that many
/// days.
pub proof fn lemma_all_weekdays(start: int, end: int, hours_per_day: int)
    requires
        start <= end,
        forall|day: int| start <= day < end ==> is_weekday(day),
    ensures
        weekdays_between(start, end) == end - start,
        expected_hours_between(start, end, hours_per_day) == (end - start) * hours_per_day,
    decreases end - start,
{
    if start < end {
        lemma_all_weekdays(start, end - 1, hours_per_day);
    }
}

/// Where the end day is counted too, a range of weekdays only holds one
/// weekday more, and the hours of one day more are expected.
pub proof fn lemma_all_weekdays_with_end_day(start: int, end: int, hours_per_day: int)
    requires
        start <= end,
        forall|day: int| start <= day <= end ==> is_weekday(day),
    ensures
        weekdays_between(start, end + 1) == end - start + 1,
        expected_hours_between(start, end + 1, hours_per_day) == expected_hours_between(
            start,
            end,
            hours_per_day,
        ) + hours_per_day,
{
    lemma_all_weekdays(start, end, hours_per_day);
    lemma_all_weekdays(start, end + 1, hours_per_day);
    assert((end - start + 1) * hours_per_day == (end - start) * hours_per_day + hours_per_day)
        by (nonlinear_arith);
}

/// Seven days in a row hold five weekdays, whichever day they start on.
pub proof fn lemma_full_week(start: int)
    ensures
        weekdays_between(start, start + 7) == 5,
{
    reveal_with_fuel(weekdays_between, 8);
}

/// A range that ends where it starts holds no weekday and calls for no hours.
pub proof fn lemma_empty_range(day: int, hours_per_day: int)
    ensures
        weekdays_between(day, day) == 0,
        expected_hours_between(day, day, hours_per_day) == 0,
{
    assert(0 * hours_per_day == 0) by (nonlinear_arith);
}

} // verus!
