use ratado::utils::datetime::{
    classify_day, days_until_at, format_relative_date_at, is_same_day_at, is_today_at,
    is_this_week_at, local_day_of, Clock, RelativeDay,
};
use ratado::utils::{days_until, format_due_date, format_relative_date, generate_id, is_same_day, is_this_week, is_today, now};

const HOUR: i64 = 3_600_000_000;
const DAY: i64 = 24 * HOUR;

#[test]
fn test_format_relative_date_today() {
    assert_eq!(format_relative_date(now()), "Today");
}

#[test]
fn test_format_relative_date_tomorrow() {
    assert_eq!(format_relative_date(now() + DAY), "Tomorrow");
}

#[test]
fn test_format_relative_date_yesterday() {
    assert_eq!(format_relative_date(now() - DAY), "Yesterday");
}

#[test]
fn test_format_due_date_none() {
    assert_eq!(format_due_date(None), "");
}

#[test]
fn test_format_due_date_some() {
    assert_eq!(format_due_date(Some(now())), "Today");
}

#[test]
fn test_is_same_day() {
    // 2024-06-15T12:00:00Z
    let base = 1_718_452_800 * 1_000_000;
    let same_day = base + HOUR;
    let next_day = base + DAY;
    assert!(is_same_day(base, same_day));
    assert!(!is_same_day(base, next_day));
}

#[test]
fn test_is_today() {
    let n = now();
    assert!(is_today(n));
    assert!(!is_today(n + DAY));
}

#[test]
fn test_is_this_week() {
    let n = now();
    assert!(is_this_week(n + 3 * DAY));
    assert!(!is_this_week(n + 10 * DAY));
    assert!(!is_this_week(n - DAY));
}

#[test]
fn test_days_until_positive() {
    let days = days_until(now() + 5 * DAY);
    assert!(days >= 4 && days <= 6);
}

#[test]
fn test_days_until_negative() {
    let days = days_until(now() - 3 * DAY);
    assert!(days >= -4 && days <= -2);
}

#[test]
fn test_days_until_today() {
    assert_eq!(days_until(now()), 0);
}

#[test]
fn fixed_clock_days() {
    assert_eq!(local_day_of(0, 0), 0);
    assert_eq!(local_day_of(-1, 0), -1);
    assert_eq!(local_day_of(DAY - 1, 0), 0);
    assert_eq!(local_day_of(DAY - 1, 1), 1);
    assert_eq!(local_day_of(0, -1), -1);
    let clock = Clock::at(2 * DAY, 0);
    assert!(is_today_at(2 * DAY + HOUR, clock));
    assert_eq!(days_until_at(9 * DAY, clock), 7);
    assert_eq!(classify_day(3 * DAY, clock), RelativeDay::Tomorrow);
    assert_eq!(classify_day(DAY, clock), RelativeDay::Yesterday);
    assert_eq!(classify_day(5 * DAY, clock), RelativeDay::ThisWeek);
    assert_eq!(classify_day(10 * DAY, clock), RelativeDay::Other);
    assert!(is_same_day_at(0, DAY - 1, 0));
    assert!(is_this_week_at(7 * DAY, 0));
    assert!(!is_this_week_at(7 * DAY + 1, 0));
}

#[test]
fn fixed_clock_labels() {
    // 1970-01-03 was a Saturday.
    let clock = Clock::at(2 * DAY, 0);
    assert_eq!(format_relative_date_at(2 * DAY, clock), "Today");
    assert_eq!(format_relative_date_at(5 * DAY, clock), "Tue 06");
    assert_eq!(format_relative_date_at(40 * DAY, clock), "Feb 10");
}

#[test]
fn test_generate_id_format() {
    let id = generate_id();
    assert_eq!(id.len(), 36);
    assert_eq!(id.chars().nth(8), Some('-'));
    assert_eq!(id.chars().nth(13), Some('-'));
    assert_eq!(id.chars().nth(14), Some('7'));
    assert_eq!(id.chars().nth(18), Some('-'));
    assert_eq!(id.chars().nth(23), Some('-'));
}

#[test]
fn test_generate_id_is_unique() {
    assert_ne!(generate_id(), generate_id());
}

#[test]
fn test_generate_id_is_valid_uuid() {
    let id = generate_id();
    assert!(uuid::Uuid::parse_str(&id).is_ok());
}
