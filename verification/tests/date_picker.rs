use ratado::keys::{KeyCode, KeyEvent, KeyModifiers};
use ratado::ui::date_picker::{days_in_month, DatePicker, DatePickerAction, DayStyle};
use ratado::utils::datetime::{local_day_of, Clock};

fn key(code: KeyCode) -> KeyEvent {
    KeyEvent::new(code, KeyModifiers::none())
}

/// Days since 1970-01-01 of some dates of 2024 and 2025.
fn date(y: i32, m: u32, d: u32) -> i64 {
    let table: [((i32, u32, u32), i64); 10] = [
        ((2025, 1, 1), 20089),
        ((2025, 1, 15), 20103),
        ((2025, 1, 16), 20104),
        ((2025, 1, 20), 20108),
        ((2025, 1, 22), 20110),
        ((2025, 2, 1), 20120),
        ((2025, 2, 28), 20147),
        ((2025, 3, 1), 20148),
        ((2025, 4, 1), 20179),
        ((2024, 2, 1), 19754),
    ];
    table.iter().find(|(k, _)| *k == (y, m, d)).map(|(_, v)| *v).unwrap()
}

#[test]
fn test_new_picker() {
    let picker = DatePicker::new();
    assert_eq!(picker.selected(), local_day_of(Clock::read().now, 0));
}

#[test]
fn test_navigation_right() {
    let mut picker = DatePicker::with_date(date(2025, 1, 15));
    picker.handle_key(key(KeyCode::Right));
    assert_eq!(picker.selected(), date(2025, 1, 16));
}

#[test]
fn date_picker_test_navigation_down() {
    let mut picker = DatePicker::with_date(date(2025, 1, 15));
    picker.handle_key(key(KeyCode::Down));
    assert_eq!(picker.selected(), date(2025, 1, 22));
}

#[test]
fn test_month_navigation() {
    let mut picker = DatePicker::with_date(date(2025, 1, 15));
    picker.handle_key(key(KeyCode::PageDown));
    assert_eq!(picker.view_month, date(2025, 2, 1));
}

#[test]
fn test_enter_selects() {
    let mut picker = DatePicker::new();
    let action = picker.handle_key(key(KeyCode::Enter));
    assert_eq!(action, DatePickerAction::Select);
}

#[test]
fn date_picker_test_escape_cancels() {
    let mut picker = DatePicker::new();
    let action = picker.handle_key(key(KeyCode::Esc));
    assert_eq!(action, DatePickerAction::Cancel);
}

#[test]
fn test_days_in_month() {
    assert_eq!(days_in_month(date(2025, 1, 1)), Some(31));
    assert_eq!(days_in_month(date(2025, 2, 1)), Some(28));
    assert_eq!(days_in_month(date(2024, 2, 1)), Some(29));
    assert_eq!(days_in_month(date(2025, 4, 1)), Some(30));
}

#[test]
fn date_picker_grid_of_january_2025() {
    // January 2025 starts on a Wednesday and has 31 days.
    let picker = DatePicker::with_date(date(2025, 1, 15));
    let grid = picker.calendar_grid(date(2025, 1, 20)).unwrap();
    assert_eq!(grid.len(), 5);
    assert!(grid.iter().all(|row| row.len() == 7));
    assert_eq!(grid[0][0], None);
    assert_eq!(grid[0][1], None);
    assert_eq!(grid[0][2], Some((1, DayStyle::Plain)));
    assert_eq!(grid[0][5], Some((4, DayStyle::Weekend)));
    assert_eq!(grid[2][2], Some((15, DayStyle::Selected)));
    assert_eq!(grid[2][0], Some((13, DayStyle::Plain)));
    assert_eq!(grid[3][0], Some((20, DayStyle::Today)));
    assert_eq!(grid[4][4], Some((31, DayStyle::Plain)));
    assert_eq!(grid[4][5], None);
}

#[test]
fn date_picker_left_then_right_comes_back() {
    let mut picker = DatePicker::with_date(date(2025, 3, 1));
    picker.handle_key(key(KeyCode::Left));
    assert_eq!(picker.selected(), date(2025, 2, 28));
    picker.handle_key(key(KeyCode::Right));
    assert_eq!(picker.selected(), date(2025, 3, 1));
}

#[test]
fn date_picker_header_names_month_and_year() {
    let p = ratado::ui::date_picker::DatePicker::with_date(0);
    assert_eq!(p.header(), "◀  January 1970  ▶");
}
