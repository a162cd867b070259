use flex_balance::date::Date;
use flex_balance::error::FlexError;
use flex_balance::notice::Notice;
use flex_balance::range::{decide_range, resolve_range};

fn date(year: i32, month: u32, day: u32) -> Date {
    Date::from_ymd(year, month, day).unwrap()
}

#[test]
fn no_arguments_give_the_year_to_date() {
    let today = date(2024, 3, 15);
    let range = resolve_range(today, None, None).unwrap();
    assert_eq!(range.start, date(2024, 1, 1));
    assert_eq!(range.end, today);
    assert!(!range.end_gave_way);
    assert!(!range.start_gave_way);
}

#[test]
fn arguments_within_bounds_are_kept() {
    let today = date(2024, 3, 15);
    let range = resolve_range(today, Some("2024-02-01"), Some("2024-03-01")).unwrap();
    assert_eq!(range.start, date(2024, 2, 1));
    assert_eq!(range.end, date(2024, 3, 1));
    assert!(!range.end_gave_way);
    assert!(!range.start_gave_way);
}

#[test]
fn start_alone_runs_to_today() {
    let today = date(2024, 3, 15);
    let range = resolve_range(today, Some("2023-11-20"), None).unwrap();
    assert_eq!(range.start, date(2023, 11, 20));
    assert_eq!(range.end, today);
    assert!(!range.end_gave_way);
    assert!(!range.start_gave_way);
}

#[test]
fn end_today_is_kept() {
    let today = date(2024, 3, 15);
    let range = resolve_range(today, Some("2024-03-15"), Some("2024-03-15")).unwrap();
    assert_eq!(range.start, today);
    assert_eq!(range.end, today);
    assert!(!range.end_gave_way);
    assert!(!range.start_gave_way);
}

#[test]
fn future_end_gives_way_to_today() {
    let today = date(2024, 3, 15);
    let range = resolve_range(today, Some("2024-02-01"), Some("2024-03-16")).unwrap();
    assert_eq!(range.end, today);
    assert!(range.end_gave_way);
    assert_eq!(range.start, date(2024, 2, 1));
    assert!(!range.start_gave_way);

    let far = resolve_range(today, None, Some("2999-12-31")).unwrap();
    assert_eq!(far.end, today);
    assert!(far.end_gave_way);
    assert_eq!(far.start, date(2024, 1, 1));
}

#[test]
fn start_after_end_gives_way_to_new_year() {
    let today = date(2024, 3, 15);
    let range = resolve_range(today, Some("2024-03-10"), Some("2024-03-01")).unwrap();
    assert_eq!(range.start, date(2024, 1, 1));
    assert!(range.start_gave_way);
    assert_eq!(range.end, date(2024, 3, 1));
    assert!(!range.end_gave_way);
}

#[test]
fn start_after_today_gives_way_to_new_year() {
    let today = date(2024, 3, 15);
    let range = resolve_range(today, Some("2024-03-16"), None).unwrap();
    assert_eq!(range.start, date(2024, 1, 1));
    assert!(range.start_gave_way);
    assert_eq!(range.end, today);
}

#[test]
fn both_arguments_in_the_future() {
    let today = date(2024, 3, 15);
    let range = resolve_range(today, Some("2024-04-01"), Some("2024-05-01")).unwrap();
    assert_eq!(range.start, date(2024, 1, 1));
    assert_eq!(range.end, today);
    assert!(range.start_gave_way);
    assert!(range.end_gave_way);
}

#[test]
fn end_before_new_year_leaves_an_empty_range() {
    let today = date(2024, 3, 15);
    let range = resolve_range(today, None, Some("2023-06-01")).unwrap();
    assert_eq!(range.start, date(2024, 1, 1));
    assert_eq!(range.end, date(2023, 6, 1));
    assert!(!range.start_gave_way);
    assert!(!range.end_gave_way);
    assert!(range.end.is_before(&range.start));
}

#[test]
fn argument_that_is_no_date_is_an_error() {
    let today = date(2024, 3, 15);
    assert_eq!(
        resolve_range(today, Some("yesterday"), None).err(),
        Some(FlexError::InvalidDate)
    );
    assert_eq!(
        resolve_range(today, Some("2024-01-01"), Some("2024-02-30")).err(),
        Some(FlexError::InvalidDate)
    );
    assert_eq!(
        resolve_range(today, None, Some("")).err(),
        Some(FlexError::InvalidDate)
    );
    assert_eq!(
        resolve_range(today, Some("x"), Some("y")).err(),
        Some(FlexError::InvalidDate)
    );
}

#[test]
fn decide_range_on_dates() {
    let today = date(2024, 3, 15);
    let new_year = date(2024, 1, 1);

    let plain = decide_range(today, new_year, None, None);
    assert_eq!((plain.start, plain.end), (new_year, today));
    assert!(!plain.start_gave_way && !plain.end_gave_way);

    let kept = decide_range(today, new_year, Some(date(2023, 5, 1)), Some(date(2023, 6, 1)));
    assert_eq!((kept.start, kept.end), (date(2023, 5, 1), date(2023, 6, 1)));
    assert!(!kept.start_gave_way && !kept.end_gave_way);

    let late_end = decide_range(today, new_year, None, Some(date(2024, 3, 16)));
    assert_eq!((late_end.start, late_end.end), (new_year, today));
    assert!(!late_end.start_gave_way && late_end.end_gave_way);

    let late_start = decide_range(today, new_year, Some(date(2024, 2, 2)), Some(date(2024, 2, 1)));
    assert_eq!((late_start.start, late_start.end), (new_year, date(2024, 2, 1)));
    assert!(late_start.start_gave_way && !late_start.end_gave_way);

    let same_day = decide_range(today, new_year, Some(date(2024, 2, 1)), Some(date(2024, 2, 1)));
    assert_eq!((same_day.start, same_day.end), (date(2024, 2, 1), date(2024, 2, 1)));
    assert!(!same_day.start_gave_way && !same_day.end_gave_way);
}

#[test]
fn range_never_reaches_past_today() {
    let today = date(2024, 3, 15);
    let texts = ["2023-01-01", "2024-01-01", "2024-03-14", "2024-03-15", "2024-03-16", "2030-01-01"];
    for start in texts {
        for end in texts {
            let range = resolve_range(today, Some(start), Some(end)).unwrap();
            assert!(range.end.is_on_or_before(&today));
            assert!(range.start.is_on_or_before(&today));
            assert!(range.start.is_on_or_before(&range.end) || range.start == date(2024, 1, 1));
        }
    }
}

#[test]
fn notices_in_words() {
    assert_eq!(
        Notice::EndInFuture.text(),
        "Changing end date to today, as provided date is in the future."
    );
    assert_eq!(
        Notice::StartAfterEnd.text(),
        "Provided start date is after the end date. Setting start date to January 1st."
    );
    assert_eq!(Notice::HoursPerDayMissing.text(), "Hours per day not found. Using 7.5");
}
