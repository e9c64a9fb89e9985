use ratado::models::Task;
use ratado::ui::calendar::{count_tasks_for_date, day_heading, has_overdue_tasks_for_date, CalendarState};
use ratado::utils::datetime::{local_day_of, weekday_of, Clock};

fn today() -> i64 {
    let c = Clock::read();
    local_day_of(c.now, c.offset)
}

#[test]
fn test_calendar_state_new() {
    let state = CalendarState::new();
    let today = today();
    assert_eq!(weekday_of(state.week_start), 0);
    assert_eq!(state.selected_day as i64, weekday_of(today));
}

#[test]
fn test_calendar_state_selected_date() {
    let state = CalendarState::new();
    assert_eq!(state.selected_date(), Some(today()));
}

#[test]
fn test_calendar_state_next_day() {
    let mut state = CalendarState::new();
    let initial = state.selected_date().unwrap();
    state.next_day();
    assert_eq!(state.selected_date(), Some(initial + 1));
}

#[test]
fn test_calendar_state_prev_day() {
    let mut state = CalendarState::new();
    let initial = state.selected_date().unwrap();
    state.prev_day();
    assert_eq!(state.selected_date(), Some(initial - 1));
}

#[test]
fn test_calendar_state_next_week() {
    let mut state = CalendarState::new();
    let initial = state.week_start;
    state.next_week();
    assert_eq!(state.week_start, initial + 7);
}

#[test]
fn test_calendar_state_prev_week() {
    let mut state = CalendarState::new();
    let initial = state.week_start;
    state.prev_week();
    assert_eq!(state.week_start, initial - 7);
}

#[test]
fn test_calendar_state_goto_today() {
    let mut state = CalendarState::new();
    state.next_week();
    state.next_week();
    state.selected_day = 0;
    state.goto_today();
    assert_eq!(state.selected_date(), Some(today()));
}

#[test]
fn test_calendar_state_day_wrap_forward() {
    let mut state = CalendarState::new();
    state.selected_day = 6;
    let initial = state.week_start;
    state.next_day();
    assert_eq!(state.selected_day, 0);
    assert_eq!(state.week_start, initial + 7);
}

#[test]
fn test_calendar_state_day_wrap_backward() {
    let mut state = CalendarState::new();
    state.selected_day = 0;
    let initial = state.week_start;
    state.prev_day();
    assert_eq!(state.selected_day, 6);
    assert_eq!(state.week_start, initial - 7);
}

#[test]
fn calendar_fixed_clock_week_of_monday() {
    // 2025-01-15 is a Wednesday: day 20103 since the epoch.
    let clock = Clock::at(20103 * 86_400_000_000 + 12 * 3_600_000_000, 0);
    let state = CalendarState::new_at(clock);
    assert_eq!(state.week_start, 20101);
    assert_eq!(state.selected_day, 2);
}

#[test]
fn calendar_next_then_prev_day_comes_back() {
    let clock = Clock::at(20103 * 86_400_000_000, 0);
    let mut state = CalendarState::new_at(clock);
    let before = state;
    for _ in 0..10 {
        state.next_day();
    }
    for _ in 0..10 {
        state.prev_day();
    }
    assert_eq!(state, before);
}

#[test]
fn calendar_counts_tasks_due_on_a_day() {
    let day: i64 = 20103;
    let mut a = Task::new("a");
    a.due_date = Some(day * 86_400_000_000 + 3_600_000_000);
    let mut b = Task::new("b");
    b.due_date = Some((day + 1) * 86_400_000_000);
    let c = Task::new("c");
    let tasks = vec![a, b, c];
    assert_eq!(count_tasks_for_date(&tasks, day, 0), 1);
    assert_eq!(count_tasks_for_date(&tasks, day + 1, 0), 1);
    assert_eq!(count_tasks_for_date(&tasks, day + 2, 0), 0);
    assert!(has_overdue_tasks_for_date(&tasks, day, day + 5, 0));
    assert!(!has_overdue_tasks_for_date(&tasks, day + 2, day + 5, 0));
}

#[test]
fn day_heading_names_nearby_days() {
    assert_eq!(day_heading(20_000, 20_000), "Today");
    assert_eq!(day_heading(20_001, 20_000), "Tomorrow");
    assert_eq!(day_heading(19_999, 20_000), "Yesterday");
    assert_eq!(day_heading(0, 100), "Thursday, January 01");
}

#[test]
fn day_cards_describe_the_week() {
    // 1970-01-05 (day 4) was a Monday.
    let state = CalendarState { week_start: 4, selected_day: 2 };
    let clock = Clock::at(5 * 86_400_000_000 + 3_600_000_000, 0);
    let mut overdue = Task::new("late");
    overdue.due_date = Some(4 * 86_400_000_000 + 1);
    let mut later = Task::new("later");
    later.due_date = Some(8 * 86_400_000_000);
    let tasks = vec![overdue, later];
    let cards = ratado::ui::calendar::day_cards(&state, &tasks, clock);
    assert_eq!(cards.len(), 7);
    assert_eq!(cards[0].name, "Mon");
    assert_eq!(cards[0].number, Some(5));
    assert_eq!(cards[0].task_count, 1);
    assert!(cards[0].has_overdue);
    assert!(cards[1].today && !cards[0].today);
    assert!(cards[2].selected);
    assert_eq!(cards[4].task_count, 1);
    assert!(!cards[4].has_overdue);
    assert!(cards[5].weekend && cards[6].weekend && !cards[4].weekend);
    assert_eq!(cards[6].name, "Sun");
}
