use std::cmp::Ordering;
use ratado::models::{Filter, Priority, SortOrder, Task, TaskStatus};
use ratado::storage::codec::{
    build_filter_clause, build_order_clause, priority_to_str, project_created_text, project_from_row,
    refine_query_results, row_of_task, status_to_str, str_to_priority, str_to_status, task_from_row,
    SqlParam, StoredTask,
};
use ratado::storage::migrations::{compare_versions, parse_version, pending_versions, version_action, VersionAction};
use ratado::utils::datetime::Clock;

#[test]
fn test_compare_versions() {
    assert_eq!(compare_versions("0.1.0", "0.2.0"), Ordering::Less);
    assert_eq!(compare_versions("0.2.0", "0.2.0"), Ordering::Equal);
    assert_eq!(compare_versions("0.2.0", "0.1.0"), Ordering::Greater);
    assert_eq!(compare_versions("1.0.0", "0.9.9"), Ordering::Greater);
    assert_eq!(compare_versions("0.10.0", "0.2.0"), Ordering::Greater);
    assert_eq!(compare_versions("0.2.0", "0.10.0"), Ordering::Less);
}

#[test]
fn versions_fall_back_to_text_order() {
    assert_eq!(parse_version("1.2.3"), Some((1, 2, 3)));
    assert_eq!(parse_version("1.2.3.4"), Some((1, 2, 3)));
    assert_eq!(parse_version("+1.2.3"), Some((1, 2, 3)));
    assert_eq!(parse_version("1.2"), None);
    assert_eq!(parse_version("1.x.3"), None);
    assert_eq!(parse_version("4294967296.0.0"), None);
    assert_eq!(compare_versions("1.2", "1.10"), Ordering::Greater);
    assert_eq!(compare_versions("abc", "abd"), Ordering::Less);
}

#[test]
fn version_actions() {
    assert_eq!(version_action(None, "0.3.0"), VersionAction::Record);
    assert_eq!(version_action(Some("0.3.0"), "0.3.0"), VersionAction::Unchanged);
    assert_eq!(version_action(Some("0.2.0"), "0.3.0"), VersionAction::Upgrade);
    assert_eq!(version_action(Some("0.10.0"), "0.3.0"), VersionAction::Downgrade);
    assert_eq!(version_action(Some("+0.3.0"), "0.3.0"), VersionAction::Unchanged);
    assert!(VersionAction::Upgrade.needs_write());
    assert!(!VersionAction::Unchanged.needs_write());
}

#[test]
fn migrations_pending() {
    assert_eq!(pending_versions(0, &[1, 2, 3]), vec![1, 2, 3]);
    assert_eq!(pending_versions(2, &[1, 2, 3]), vec![3]);
    assert!(pending_versions(3, &[1, 2, 3]).is_empty());
}

#[test]
fn priority_and_status_text() {
    for p in [Priority::Low, Priority::Medium, Priority::High, Priority::Urgent] {
        assert_eq!(str_to_priority(priority_to_str(p)), p);
    }
    for s in [TaskStatus::Pending, TaskStatus::InProgress, TaskStatus::Completed, TaskStatus::Archived] {
        assert_eq!(str_to_status(status_to_str(s)), s);
    }
    assert_eq!(str_to_priority("URGENT"), Priority::Urgent);
    assert_eq!(str_to_priority("whatever"), Priority::Medium);
    assert_eq!(str_to_status("Completed"), TaskStatus::Completed);
    assert_eq!(str_to_status("?"), TaskStatus::Pending);
}

#[test]
fn sql_clauses() {
    assert_eq!(build_order_clause(&SortOrder::Alphabetical), "ORDER BY title ASC");
    assert_eq!(build_order_clause(&SortOrder::DueDateAsc), "ORDER BY due_date ASC NULLS LAST");
    let (w, p) = build_filter_clause(&Filter::ByPriority(Priority::High));
    assert_eq!(w, "WHERE priority = ?1");
    assert!(matches!(&p[..], [SqlParam::Text(t)] if t == "high"));
    let (w, p) = build_filter_clause(&Filter::All);
    assert_eq!(w, "");
    assert!(p.is_empty());
    let (w, _) = build_filter_clause(&Filter::Overdue);
    assert_eq!(w, "WHERE due_date IS NOT NULL AND status NOT IN ('completed', 'archived')");
    let (w, p) = build_filter_clause(&Filter::ByProject("p9".to_string()));
    assert_eq!(w, "WHERE project_id = ?1");
    assert!(matches!(&p[..], [SqlParam::Text(t)] if t == "p9"));
}

#[test]
fn refine_keeps_tag_and_date_matches() {
    let mut a = Task::new_at("a", "a".to_string(), 0);
    a.tags = vec!["x".to_string()];
    let b = Task::new_at("b", "b".to_string(), 0);
    let clock = Clock::at(1_000, 0);
    let kept = refine_query_results(&Filter::ByTag("x".to_string()), vec![a.clone(), b.clone()], clock);
    assert_eq!(kept.len(), 1);
    assert_eq!(kept[0].title, "a");
    let mut c = Task::new_at("c", "c".to_string(), 0);
    c.due_date = Some(10);
    let kept = refine_query_results(&Filter::Overdue, vec![a.clone(), c], clock);
    assert_eq!(kept.len(), 1);
    assert_eq!(kept[0].title, "c");
    let kept = refine_query_results(&Filter::Pending, vec![a, b], clock);
    assert_eq!(kept.len(), 2);
}

fn stored(created: &str) -> StoredTask {
    StoredTask {
        id: "t1".to_string(),
        title: "Write".to_string(),
        description: None,
        due_date: Some("2024-01-16T00:00:00+00:00".to_string()),
        priority: "HIGH".to_string(),
        status: "in_progress".to_string(),
        project_id: Some("inbox".to_string()),
        created_at: created.to_string(),
        updated_at: "2024-01-15T10:30:00Z".to_string(),
        completed_at: None,
    }
}

#[test]
fn task_from_row_reads_instants_and_codes() {
    let t = task_from_row(stored("2024-01-15T10:30:00+00:00")).unwrap();
    assert_eq!(t.created_at, 1_705_314_600_000_000);
    assert_eq!(t.updated_at, 1_705_314_600_000_000);
    assert_eq!(t.due_date, Some(1_705_363_200_000_000));
    assert_eq!(t.priority, Priority::High);
    assert_eq!(t.status, TaskStatus::InProgress);
    assert!(t.tags.is_empty());
    assert!(task_from_row(stored("yesterday")).is_none());
}

#[test]
fn row_of_task_round_trips() {
    let mut t = Task::new("Round trip");
    t.due_date = Some(1_705_363_200_123_456);
    t.complete();
    let row = row_of_task(&t).unwrap();
    assert_eq!(row.status, "completed");
    let back = task_from_row(row).unwrap();
    assert_eq!(back.due_date, t.due_date);
    assert_eq!(back.completed_at, t.completed_at);
    assert_eq!(back.created_at, t.created_at);
    assert_eq!(back.title, t.title);
    let mut far = Task::new("Far");
    far.due_date = Some(i64::MAX);
    assert!(row_of_task(&far).is_none());
}

#[test]
fn project_rows() {
    let p = project_from_row(
        "inbox".to_string(),
        "Inbox".to_string(),
        "#3498db".to_string(),
        "📥".to_string(),
        "2024-01-15T10:30:00Z",
    )
    .unwrap();
    assert_eq!(p.created_at, 1_705_314_600_000_000);
    assert_eq!(project_created_text(&p).unwrap(), "2024-01-15T10:30:00+00:00");
    assert!(project_from_row(String::new(), String::new(), String::new(), String::new(), "x").is_none());
}
