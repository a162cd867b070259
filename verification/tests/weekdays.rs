use flex_balance::date::Date;
use flex_balance::weekdays::{count_weekdays, expected_hours};

fn date(year: i32, month: u32, day: u32) -> Date {
    Date::from_ymd(year, month, day).unwrap()
}

fn days_on(start: Date, days: i32) -> Date {
    Date::from_day_number(start.day_number() + days).unwrap()
}

#[test]
fn only_weekdays_count_in_full() {
    let monday = date(2024, 1, 1);
    for first in 0..5 {
        for last in first..5 {
            let start = days_on(monday, first);
            let end = days_on(monday, last);
            assert_eq!(count_weekdays(start, end), (last - first) as u32);
            assert_eq!(expected_hours(start, end, 750), (last - first) as i64 * 750);
            // With the end day counted too, there is one day more.
            let past_end = days_on(end, 1);
            assert_eq!(count_weekdays(start, past_end), (last - first) as u32 + 1);
        }
    }
}

#[test]
fn monday_to_saturday_holds_five_weekdays() {
    assert_eq!(count_weekdays(date(2024, 1, 1), date(2024, 1, 6)), 5);
}

#[test]
fn full_week_holds_five_weekdays() {
    let monday = date(2024, 1, 1);
    for offset in 0..7 {
        let start = days_on(monday, offset);
        assert_eq!(count_weekdays(start, days_on(start, 7)), 5);
    }
    for day in [-7, -1, 0, 1, 719_163] {
        let start = Date::from_day_number(day).unwrap();
        assert_eq!(count_weekdays(start, days_on(start, 7)), 5);
    }
}

#[test]
fn empty_range_expects_nothing() {
    for offset in 0..7 {
        let day = days_on(date(2024, 1, 1), offset);
        assert_eq!(count_weekdays(day, day), 0);
        assert_eq!(expected_hours(day, day, 750), 0);
    }
}

#[test]
fn range_that_ends_before_it_starts_expects_nothing() {
    assert_eq!(count_weekdays(date(2024, 1, 10), date(2024, 1, 1)), 0);
    assert_eq!(expected_hours(date(2024, 1, 10), date(2024, 1, 1), 750), 0);
}

#[test]
fn end_day_is_not_counted() {
    // Friday is the end: Monday to Thursday count.
    assert_eq!(count_weekdays(date(2024, 1, 1), date(2024, 1, 5)), 4);
    // One day, a Wednesday.
    assert_eq!(count_weekdays(date(2024, 1, 3), date(2024, 1, 4)), 1);
}

#[test]
fn weekend_holds_no_weekday() {
    assert_eq!(count_weekdays(date(2024, 1, 6), date(2024, 1, 8)), 0);
    assert_eq!(count_weekdays(date(2024, 1, 6), date(2024, 1, 7)), 0);
    assert_eq!(count_weekdays(date(2024, 1, 7), date(2024, 1, 8)), 0);
}

#[test]
fn weekdays_of_a_month_and_a_year() {
    assert_eq!(count_weekdays(date(2024, 1, 1), date(2024, 2, 1)), 23);
    assert_eq!(count_weekdays(date(2024, 2, 1), date(2024, 3, 1)), 21);
    assert_eq!(count_weekdays(date(2024, 1, 1), date(2025, 1, 1)), 262);
    assert_eq!(count_weekdays(date(2023, 1, 1), date(2024, 1, 1)), 260);
}

#[test]
fn five_weekdays_at_seven_and_a_half_hours() {
    assert_eq!(expected_hours(date(2024, 1, 1), date(2024, 1, 6), 750), 3750);
    assert_eq!(expected_hours(date(2024, 1, 3), date(2024, 1, 10), 750), 3750);
}

#[test]
fn expected_hours_are_weekdays_times_hours_per_day() {
    assert_eq!(expected_hours(date(2024, 1, 1), date(2024, 2, 1), 800), 23 * 800);
    assert_eq!(expected_hours(date(2024, 1, 1), date(2024, 2, 1), 1), 23);
    assert_eq!(expected_hours(date(2024, 1, 1), date(2024, 2, 1), 0), 0);
    assert_eq!(expected_hours(date(2024, 1, 1), date(2025, 1, 1), 750), 196_500);
    assert_eq!(
        expected_hours(date(2024, 1, 1), date(2024, 1, 3), i32::MAX),
        2 * i32::MAX as i64
    );
}

#[test]
fn expected_hours_in_floating_point() {
    let hundredths = expected_hours(date(2024, 1, 1), date(2024, 1, 6), 750);
    assert_eq!(hundredths as f64 / 100.0, 37.5);
}
