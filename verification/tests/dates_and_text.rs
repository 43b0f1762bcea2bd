use alegria::dates::{
    CalendarDate, check_date_format, checked_add_days, checked_sub_days, date_from_ymd,
    iso_date_string, parse_date_to_naive_datetime, plain_date_string, today,
};
use alegria::text::{contains_text, decimal_string, to_lowercase};

fn date(year: i32, month: u32, day: u32) -> CalendarDate {
    CalendarDate { year, month, day }
}

#[test]
fn date_format_accepts_four_digit_years_with_short_month_and_day() {
    assert!(check_date_format("2024-03-05"));
    assert!(check_date_format("2024-3-5"));
    assert!(check_date_format("2024-12-31"));
    assert!(check_date_format("2024-02-31"));
    assert!(check_date_format("2024-01-05"));
}

#[test]
fn date_format_refuses_other_texts() {
    assert!(!check_date_format("24-03-05"));
    assert!(!check_date_format("02024-03-05"));
    assert!(!check_date_format("2024-13-01"));
    assert!(!check_date_format("2024-00-10"));
    assert!(!check_date_format("2024-01-32"));
    assert!(!check_date_format("2024-01-00"));
    assert!(!check_date_format("2024/01/01"));
    assert!(!check_date_format("2024-01"));
    assert!(!check_date_format("2024-1-1-1"));
    assert!(!check_date_format("abcd-01-01"));
    assert!(!check_date_format("2024--01"));
    assert!(!check_date_format(""));
    assert!(!check_date_format("2024-+1-01"));
    assert!(!check_date_format("2024-001-05"));
    assert!(!check_date_format("2024-01-005"));
}

#[test]
fn parse_reads_existing_days() {
    assert_eq!(parse_date_to_naive_datetime("2024-02-29"), Some(date(2024, 2, 29)));
    assert_eq!(parse_date_to_naive_datetime("2024-3-5"), Some(date(2024, 3, 5)));
    assert_eq!(parse_date_to_naive_datetime("99-1-1"), Some(date(99, 1, 1)));
    assert_eq!(parse_date_to_naive_datetime("+2024-01-01"), Some(date(2024, 1, 1)));
    assert_eq!(parse_date_to_naive_datetime("2024-+1-01"), Some(date(2024, 1, 1)));
}

#[test]
fn parse_refuses_days_that_do_not_exist_and_malformed_texts() {
    assert_eq!(parse_date_to_naive_datetime("2023-02-29"), None);
    assert_eq!(parse_date_to_naive_datetime("2024-04-31"), None);
    assert_eq!(parse_date_to_naive_datetime("2024-13-01"), None);
    assert_eq!(parse_date_to_naive_datetime("2024-01"), None);
    assert_eq!(parse_date_to_naive_datetime("2024-01-01-"), None);
    assert_eq!(parse_date_to_naive_datetime("x-01-01"), None);
    assert_eq!(parse_date_to_naive_datetime("300000-01-01"), None);
}

#[test]
fn dates_written_by_the_forms_read_back() {
    let d = date(2024, 3, 5);
    let text = plain_date_string(d);
    assert_eq!(text, "2024-3-5");
    assert!(check_date_format(&text));
    assert_eq!(parse_date_to_naive_datetime(&text), Some(d));
    let iso = iso_date_string(d);
    assert_eq!(iso, "2024-03-05");
    assert!(check_date_format(&iso));
    assert_eq!(parse_date_to_naive_datetime(&iso), Some(d));
}

#[test]
fn iso_dates_pad_and_sign_years() {
    assert_eq!(iso_date_string(date(5, 1, 2)), "0005-01-02");
    assert_eq!(iso_date_string(date(-5, 12, 31)), "-0005-12-31");
    assert_eq!(iso_date_string(date(10000, 1, 1)), "+10000-01-01");
    assert_eq!(plain_date_string(date(-5, 12, 31)), "-5-12-31");
}

#[test]
fn day_arithmetic_crosses_months_and_years() {
    assert_eq!(checked_add_days(date(2024, 2, 28), 1), Some(date(2024, 2, 29)));
    assert_eq!(checked_add_days(date(2023, 2, 28), 1), Some(date(2023, 3, 1)));
    assert_eq!(checked_add_days(date(2023, 12, 31), 1), Some(date(2024, 1, 1)));
    assert_eq!(checked_add_days(date(2024, 3, 1), 14), Some(date(2024, 3, 15)));
    assert_eq!(checked_sub_days(date(2024, 3, 1), 1), Some(date(2024, 2, 29)));
    assert_eq!(checked_sub_days(date(2024, 1, 1), 1), Some(date(2023, 12, 31)));
    assert_eq!(checked_add_days(date(262142, 12, 31), 1), None);
    assert_eq!(checked_sub_days(date(-262143, 1, 1), 1), None);
}

#[test]
fn only_existing_days_are_dates() {
    assert_eq!(date_from_ymd(2024, 2, 29), Some(date(2024, 2, 29)));
    assert_eq!(date_from_ymd(1900, 2, 29), None);
    assert_eq!(date_from_ymd(2000, 2, 29), Some(date(2000, 2, 29)));
    assert_eq!(date_from_ymd(2024, 2, 30), None);
    assert_eq!(date_from_ymd(2024, 0, 1), None);
    assert_eq!(date_from_ymd(300000, 1, 1), None);
}

#[test]
fn today_is_a_represented_day() {
    let t = today();
    assert_eq!(date_from_ymd(t.year, t.month, t.day), Some(t));
}

#[test]
fn text_search_is_a_substring_match() {
    assert!(contains_text("maria garcia", "garcia"));
    assert!(contains_text("maria garcia", ""));
    assert!(contains_text("ñandú", "dú"));
    assert!(!contains_text("maria", "marias"));
    assert!(!contains_text("", "a"));
    assert!(!contains_text("abc", "ac"));
}

#[test]
fn lower_case_and_decimal_text() {
    assert_eq!(to_lowercase("ÁNGEL Pérez"), "ángel pérez");
    assert_eq!(decimal_string(-42), "-42");
    assert_eq!(decimal_string(0), "0");
}

#[test]
fn a_formatted_text_reads_as_the_day_its_parts_name() {
    assert!(check_date_format("2024-2-5"));
    assert_eq!(parse_date_to_naive_datetime("2024-2-5"), Some(date(2024, 2, 5)));
    assert!(check_date_format("0999-12-31"));
    assert_eq!(parse_date_to_naive_datetime("0999-12-31"), Some(date(999, 12, 31)));
    assert!(check_date_format("2024-02-30"));
    assert_eq!(parse_date_to_naive_datetime("2024-02-30"), None);
}

#[test]
fn dates_of_short_years_read_back() {
    let d = date(999, 7, 4);
    let text = plain_date_string(d);
    assert_eq!(text, "999-7-4");
    assert!(!check_date_format(&text));
    assert_eq!(parse_date_to_naive_datetime(&text), Some(d));
    let d = date(0, 1, 1);
    assert_eq!(parse_date_to_naive_datetime(&plain_date_string(d)), Some(d));
}
