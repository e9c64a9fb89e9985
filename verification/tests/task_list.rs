use ratado::models::{Priority, Project, Task};
use ratado::ui::task_list::{task_row_at, task_row_checked_at, Area, ListRenderInfo, RowTone};
use ratado::utils::datetime::Clock;

const DAY_MICROS: i64 = 86_400_000_000;

#[test]
fn test_task_row_truncation() {
    let mut task = Task::new("This is a very long task title that should be truncated");
    task.priority = Priority::High;
    let clock = Clock::read();

    let row = task_row_at(&task, false, false, 80, None, clock);
    assert_eq!(row.title, task.title);
    assert_eq!(row.title_width, 66);
    assert_eq!(row.priority_icon, "△");
    assert!(!row.emphasised);

    let row = task_row_at(&task, true, true, 40, None, clock);
    assert_eq!(row.title_width, 26);
    assert_eq!(row.title, "This is a very long tas...");
    assert!(row.emphasised);

    let row = task_row_at(&task, false, false, 20, None, clock);
    assert_eq!(row.title_width, 10);
    assert_eq!(row.title, "This is...");
}

#[test]
fn test_overdue_task_style() {
    let clock = Clock::read();
    let mut task = Task::new("Overdue task");
    task.due_date = Some(clock.now - DAY_MICROS);

    let row = task_row_at(&task, false, false, 80, None, clock);
    assert_eq!(row.title_tone, RowTone::Overdue);
    assert_eq!(row.date_tone, RowTone::Overdue);
    assert_eq!(row.date, "Yesterday");
}

#[test]
fn test_completed_task_style() {
    let mut task = Task::new("Completed task");
    task.complete();
    let clock = Clock::read();

    let row = task_row_at(&task, false, false, 80, None, clock);
    assert_eq!(row.title_tone, RowTone::Completed);
    assert_eq!(row.date_tone, RowTone::Completed);
    assert_eq!(row.status_icon, "●");
    assert_eq!(row.date, "✓ Today");
}

#[test]
fn test_task_row_with_project() {
    let mut task = Task::new("Task in project");
    task.project_id = Some("proj-1".to_string());
    let project = Project::new("Work");
    let clock = Clock::read();

    let row = task_row_at(&task, false, false, 80, Some(&project), clock);
    assert_eq!(row.project, "@Work");
    assert_eq!(row.title_width, 80 - 14 - 5);
}

#[test]
fn task_row_finished_with_both_dates() {
    let clock = Clock::read();
    let mut task = Task::new("Both dates");
    task.due_date = Some(clock.now + DAY_MICROS);
    task.complete();
    let row = task_row_at(&task, false, true, 80, None, clock);
    assert_eq!(row.date, "Tomorrow · ✓ Today");
    assert!(!row.emphasised);
}

#[test]
fn task_row_tags_are_shortened() {
    let clock = Clock::read();
    let mut task = Task::new("Tagged");
    task.tags = vec!["alpha".to_string(), "beta".to_string(), "gamma".to_string(), "delta".to_string()];
    let row = task_row_at(&task, false, false, 80, None, clock);
    assert_eq!(row.tags, "#alpha #beta #gam...");
    assert_eq!(row.title_width, 80 - 14 - 20);
    assert_eq!(row.title_tone, RowTone::Primary);
    assert_eq!(row.date_tone, RowTone::Muted);
}

#[test]
fn task_row_due_today_and_this_week() {
    let clock = Clock::at(1_700_000_000_000_000, 0);
    let mut task = Task::new("Soon");
    task.due_date = Some(clock.now + 60_000_000);
    let row = task_row_at(&task, false, false, 80, None, clock);
    assert_eq!(row.title_tone, RowTone::DueToday);
    assert_eq!(row.date_tone, RowTone::DueToday);

    task.due_date = Some(clock.now + 3 * DAY_MICROS);
    let row = task_row_at(&task, false, false, 80, None, clock);
    assert_eq!(row.title_tone, RowTone::DueThisWeek);
    assert_eq!(row.date_tone, RowTone::Muted);
}

#[test]
fn task_row_checked_refuses_a_split_character() {
    let clock = Clock::read();
    let task = Task::new("ééééééééééééééééééé");
    assert!(task_row_checked_at(&task, false, false, 20, None, clock).is_none());
    let task = Task::new("short");
    let row = task_row_checked_at(&task, false, false, 20, None, clock).unwrap();
    assert_eq!(row.title, "short");
}

fn info() -> ListRenderInfo {
    ListRenderInfo {
        content_area: Area { x: 0, y: 1, width: 80, height: 10 },
        scroll_offset: 2,
        task_ids: vec!["a".to_string(), "b".to_string(), "c".to_string()],
    }
}

#[test]
fn task_row_rect_counts_from_scroll_offset() {
    let info = info();
    assert_eq!(info.task_row_rect(1), None);
    assert_eq!(info.task_row_rect(2), Some(Area { x: 0, y: 1, width: 80, height: 1 }));
    assert_eq!(info.task_row_rect(11), Some(Area { x: 0, y: 10, width: 80, height: 1 }));
    assert_eq!(info.task_row_rect(12), None);
}

#[test]
fn find_task_rect_by_id() {
    let info = info();
    assert_eq!(info.find_task_rect("c"), Some(Area { x: 0, y: 1, width: 80, height: 1 }));
    assert_eq!(info.find_task_rect("a"), None);
    assert_eq!(info.find_task_rect("z"), None);
}
