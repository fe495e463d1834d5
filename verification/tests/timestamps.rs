use algovault::clock::{now_as_str, timestamp_text, FIRST_FOUR_DIGIT_SECOND, LAST_FOUR_DIGIT_SECOND};

fn has_shape(text: &str) -> bool {
    let bytes = text.as_bytes();
    bytes.len() == 19
        && bytes.iter().enumerate().all(|(i, b)| match i {
            2 | 5 => *b == b'/',
            10 => *b == b' ',
            13 | 16 => *b == b':',
            _ => b.is_ascii_digit(),
        })
}

#[test]
fn the_epoch_is_the_first_of_january_1970() {
    assert_eq!(timestamp_text(0).unwrap(), "01/01/1970 00:00:00");
}

#[test]
fn a_timestamp_is_day_month_year_then_time_of_day() {
    assert_eq!(timestamp_text(1431648000).unwrap(), "15/05/2015 00:00:00");
    assert_eq!(timestamp_text(1700000000).unwrap(), "14/11/2023 22:13:20");
}

#[test]
fn a_timestamp_before_the_epoch_counts_backwards() {
    assert_eq!(timestamp_text(-1).unwrap(), "31/12/1969 23:59:59");
}

#[test]
fn the_four_digit_years_run_from_0_to_9999() {
    assert_eq!(timestamp_text(FIRST_FOUR_DIGIT_SECOND).unwrap(), "01/01/0000 00:00:00");
    assert_eq!(timestamp_text(LAST_FOUR_DIGIT_SECOND).unwrap(), "31/12/9999 23:59:59");
    assert!(has_shape(&timestamp_text(FIRST_FOUR_DIGIT_SECOND).unwrap()));
    assert!(has_shape(&timestamp_text(LAST_FOUR_DIGIT_SECOND).unwrap()));
}

#[test]
fn a_year_beyond_9999_is_written_with_a_sign() {
    assert_eq!(
        timestamp_text(LAST_FOUR_DIGIT_SECOND + 1).unwrap(),
        "01/01/+10000 00:00:00"
    );
    assert!(!has_shape(&timestamp_text(FIRST_FOUR_DIGIT_SECOND - 1).unwrap()));
}

#[test]
fn an_instant_out_of_the_calendar_has_no_text() {
    assert!(timestamp_text(i64::MAX).is_none());
    assert!(timestamp_text(i64::MIN).is_none());
}

#[test]
fn the_current_time_has_the_stored_layout() {
    let now = now_as_str();
    assert!(has_shape(&now), "unexpected layout: {}", now);
}

#[test]
fn the_current_time_is_not_before_this_test_was_written() {
    let now = now_as_str();
    let year: u32 = now[6..10].parse().unwrap();
    assert!(year >= 2024);
}

#[test]
fn later_instants_need_not_sort_later_as_text() {
    let end_of_year = timestamp_text(1704067199).unwrap();
    let new_year = timestamp_text(1704067200).unwrap();
    assert_eq!(end_of_year, "31/12/2023 23:59:59");
    assert_eq!(new_year, "01/01/2024 00:00:00");
    assert!(new_year < end_of_year);
}
