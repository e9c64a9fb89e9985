use ratado::models::{Filter, Priority, Project, SortOrder, Task, TaskStatus};
use ratado::utils::datetime::Clock;
use ratado::utils::now;

const HOUR: i64 = 3_600_000_000;
const DAY: i64 = 24 * HOUR;

#[test]
fn test_priority_ordering() {
    assert!(Priority::Urgent > Priority::High);
    assert!(Priority::High > Priority::Medium);
    assert!(Priority::Medium > Priority::Low);
}

#[test]
fn test_task_new() {
    let task = Task::new("Test Task");
    assert_eq!(task.title, "Test Task");
    assert_eq!(task.status, TaskStatus::Pending);
    assert_eq!(task.priority, Priority::Medium);
    assert!(task.description.is_none());
    assert!(task.due_date.is_none());
}

#[test]
fn test_task_is_overdue() {
    let mut task = Task::new("Test");
    task.due_date = Some(now() - HOUR);
    assert!(task.is_overdue());
}

#[test]
fn test_completed_task_not_overdue() {
    let mut task = Task::new("Test");
    task.due_date = Some(now() - HOUR);
    task.complete();
    assert!(!task.is_overdue());
}

#[test]
fn test_task_without_due_date_not_overdue() {
    let task = Task::new("Test");
    assert!(!task.is_overdue());
}

#[test]
fn test_task_complete_and_reopen() {
    let mut task = Task::new("Test");
    assert_eq!(task.status, TaskStatus::Pending);
    assert!(task.completed_at.is_none());
    task.complete();
    assert_eq!(task.status, TaskStatus::Completed);
    assert!(task.completed_at.is_some());
    task.reopen();
    assert_eq!(task.status, TaskStatus::Pending);
    assert!(task.completed_at.is_none());
}

#[test]
fn test_task_is_due_today() {
    let mut task = Task::new("Test");
    task.due_date = Some(now());
    assert!(task.is_due_today());
    task.due_date = Some(now() + DAY);
    assert!(!task.is_due_today());
}

#[test]
fn task_fixed_clock_predicates() {
    let clock = Clock::at(10 * DAY + 12 * HOUR, 0);
    let mut task = Task::new_at("x", "id".to_string(), 0);
    task.due_date = Some(10 * DAY + HOUR);
    assert!(task.is_due_today_at(clock));
    assert!(task.is_overdue_at(clock.now));
    assert!(!task.is_due_this_week_at(clock.now));
    task.due_date = Some(17 * DAY + 12 * HOUR);
    assert!(task.is_due_this_week_at(clock.now));
    task.due_date = Some(17 * DAY + 12 * HOUR + 1);
    assert!(!task.is_due_this_week_at(clock.now));
    let east = Clock::at(10 * DAY + 12 * HOUR, 13 * 3600);
    task.due_date = Some(11 * DAY + HOUR);
    assert!(task.is_due_today_at(east));
}

#[test]
fn test_project_new() {
    let project = Project::new("Work");
    assert_eq!(project.name, "Work");
    assert_eq!(project.color, "#3498db");
    assert!(!project.id.is_empty());
}

#[test]
fn test_project_with_style() {
    let project = Project::with_style("Personal", "#e74c3c", "🏠");
    assert_eq!(project.name, "Personal");
    assert_eq!(project.color, "#e74c3c");
    assert_eq!(project.icon, "🏠");
}

#[test]
fn project_default_is_inbox() {
    let p = Project::default();
    assert_eq!(p.name, "Inbox");
    assert_eq!(p.icon, "📁");
}

#[test]
fn test_filter_all() {
    let tasks = vec![Task::new("Task 1"), Task::new("Task 2")];
    let filtered = Filter::All.apply(&tasks);
    assert_eq!(filtered.len(), 2);
}

#[test]
fn test_filter_by_status() {
    let task1 = Task::new("Pending");
    let mut task2 = Task::new("Completed");
    task2.complete();
    let tasks = vec![task1.clone(), task2.clone()];

    let pending = Filter::Pending.apply(&tasks);
    assert_eq!(pending.len(), 1);
    assert_eq!(pending[0].title, "Pending");

    let completed = Filter::Completed.apply(&tasks);
    assert_eq!(completed.len(), 1);
    assert_eq!(completed[0].title, "Completed");
}

#[test]
fn test_filter_by_priority() {
    let mut task1 = Task::new("Low");
    task1.priority = Priority::Low;
    let mut task2 = Task::new("High");
    task2.priority = Priority::High;
    let tasks = vec![task1, task2];
    let high_priority = Filter::ByPriority(Priority::High).apply(&tasks);
    assert_eq!(high_priority.len(), 1);
    assert_eq!(high_priority[0].title, "High");
}

#[test]
fn test_filter_overdue() {
    let mut task1 = Task::new("Overdue");
    task1.due_date = Some(now() - HOUR);
    let mut task2 = Task::new("Future");
    task2.due_date = Some(now() + DAY);
    let tasks = vec![task1, task2];
    let overdue = Filter::Overdue.apply(&tasks);
    assert_eq!(overdue.len(), 1);
    assert_eq!(overdue[0].title, "Overdue");
}

#[test]
fn filter_by_tag_and_project() {
    let mut a = Task::new("a");
    a.tags = vec!["home".to_string()];
    a.project_id = Some("p1".to_string());
    let b = Task::new("b");
    let tasks = vec![a, b];
    let by_tag = Filter::ByTag("home".to_string()).apply(&tasks);
    assert_eq!(by_tag.len(), 1);
    let by_project = Filter::ByProject("p1".to_string()).apply(&tasks);
    assert_eq!(by_project[0].title, "a");
    assert!(Filter::ByTag("Home".to_string()).apply(&tasks).is_empty());
    assert!(matches!(Filter::default(), Filter::Pending));
}

#[test]
fn test_sort_by_priority() {
    let mut task1 = Task::new("Low");
    task1.priority = Priority::Low;
    let mut task2 = Task::new("High");
    task2.priority = Priority::High;
    let mut task3 = Task::new("Medium");
    task3.priority = Priority::Medium;
    let tasks = vec![task1, task2, task3];
    let mut refs: Vec<&Task> = tasks.iter().collect();
    SortOrder::PriorityDesc.apply(&mut refs);
    assert_eq!(refs[0].title, "High");
    assert_eq!(refs[1].title, "Medium");
    assert_eq!(refs[2].title, "Low");
}

#[test]
fn test_sort_alphabetical() {
    let tasks = vec![Task::new("Zebra"), Task::new("Apple"), Task::new("Mango")];
    let mut refs: Vec<&Task> = tasks.iter().collect();
    SortOrder::Alphabetical.apply(&mut refs);
    assert_eq!(refs[0].title, "Apple");
    assert_eq!(refs[1].title, "Mango");
    assert_eq!(refs[2].title, "Zebra");
}

#[test]
fn test_sort_due_date_with_none() {
    let mut task_with_due = Task::new("Has due date");
    task_with_due.due_date = Some(now() + DAY);
    let task_no_due_1 = Task::new("No due date 1");
    let mut task_no_due_2 = Task::new("No due date 2");
    task_no_due_2.created_at = now() + 1_000_000;
    let tasks = vec![task_no_due_1, task_with_due, task_no_due_2];
    let mut refs: Vec<&Task> = tasks.iter().collect();
    SortOrder::DueDateAsc.apply(&mut refs);
    assert_eq!(refs[0].title, "Has due date");
    assert_eq!(refs[1].title, "No due date 1");
    assert_eq!(refs[2].title, "No due date 2");
}

#[test]
fn sort_is_stable_for_ties() {
    let mk = |t: &str, p: Priority| {
        let mut x = Task::new_at(t, t.to_string(), 5);
        x.priority = p;
        x
    };
    let tasks = vec![
        mk("a", Priority::Low),
        mk("b", Priority::High),
        mk("c", Priority::Low),
        mk("d", Priority::High),
    ];
    let mut refs: Vec<&Task> = tasks.iter().collect();
    SortOrder::PriorityDesc.apply(&mut refs);
    let order: Vec<&str> = refs.iter().map(|t| t.title.as_str()).collect();
    assert_eq!(order, vec!["b", "d", "a", "c"]);
    SortOrder::CreatedAsc.apply(&mut refs);
    let order: Vec<&str> = refs.iter().map(|t| t.title.as_str()).collect();
    assert_eq!(order, vec!["b", "d", "a", "c"]);
}

#[test]
fn sort_due_date_desc_and_created() {
    let mut a = Task::new_at("a", "a".to_string(), 1);
    a.due_date = Some(100);
    let mut b = Task::new_at("b", "b".to_string(), 2);
    b.due_date = Some(200);
    let c = Task::new_at("c", "c".to_string(), 3);
    let d = Task::new_at("d", "d".to_string(), 4);
    let tasks = vec![c, a, d, b];
    let mut refs: Vec<&Task> = tasks.iter().collect();
    SortOrder::DueDateDesc.apply(&mut refs);
    let order: Vec<&str> = refs.iter().map(|t| t.title.as_str()).collect();
    assert_eq!(order, vec!["b", "a", "d", "c"]);
    SortOrder::CreatedDesc.apply(&mut refs);
    let order: Vec<&str> = refs.iter().map(|t| t.title.as_str()).collect();
    assert_eq!(order, vec!["d", "c", "b", "a"]);
}

#[test]
fn sort_alphabetical_uses_code_points() {
    let tasks = vec![Task::new("b"), Task::new("B"), Task::new("é"), Task::new("ab"), Task::new("a")];
    let mut refs: Vec<&Task> = tasks.iter().collect();
    SortOrder::Alphabetical.apply(&mut refs);
    let order: Vec<&str> = refs.iter().map(|t| t.title.as_str()).collect();
    assert_eq!(order, vec!["B", "a", "ab", "b", "é"]);
}
