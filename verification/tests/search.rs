use ratado::models::{Priority, Task};
use ratado::ui::search::{result_row_at, result_row_checked_at, search_tasks, search_tasks_checked, snippet_line};
use ratado::utils::datetime::Clock;

fn sample_tasks() -> Vec<Task> {
    vec![
        {
            let mut t = Task::new("Buy groceries");
            t.description = Some("Get milk and bread from the store".to_string());
            t
        },
        {
            let mut t = Task::new("Write documentation");
            t.description = Some("Update the README file".to_string());
            t
        },
        {
            let mut t = Task::new("Fix bug in search");
            t.priority = Priority::High;
            t
        },
    ]
}

#[test]
fn test_search_by_title() {
    let tasks = sample_tasks();
    let results = search_tasks("groceries", &tasks);
    assert_eq!(results.len(), 1);
    assert_eq!(results[0].task.title, "Buy groceries");
    assert!(results[0].title_match.is_some());
}

#[test]
fn test_search_by_description() {
    let tasks = sample_tasks();
    let results = search_tasks("README", &tasks);
    assert_eq!(results.len(), 1);
    assert_eq!(results[0].task.title, "Write documentation");
    assert!(results[0].desc_snippet.is_some());
}

#[test]
fn test_search_case_insensitive() {
    let tasks = sample_tasks();
    let results = search_tasks("BUG", &tasks);
    assert_eq!(results.len(), 1);
    assert_eq!(results[0].task.title, "Fix bug in search");
}

#[test]
fn test_search_no_results() {
    let tasks = sample_tasks();
    let results = search_tasks("nonexistent", &tasks);
    assert!(results.is_empty());
}

#[test]
fn test_search_empty_query() {
    let tasks = sample_tasks();
    let results = search_tasks("", &tasks);
    assert!(results.is_empty());
}

#[test]
fn test_search_multiple_results() {
    let tasks = sample_tasks();
    let results = search_tasks("the", &tasks);
    assert_eq!(results.len(), 2);
}

#[test]
fn search_title_match_is_a_byte_range() {
    let tasks = sample_tasks();
    let results = search_tasks("GROC", &tasks);
    assert_eq!(results[0].title_match, Some((4, 8)));
}

#[test]
fn search_snippet_marks_cut_text() {
    let mut t = Task::new("Long");
    t.description = Some("0123456789012345678901234567890123456789 needle 0123456789012345678901234567890123456789".to_string());
    let results = search_tasks("needle", &[t]);
    let s = results[0].desc_snippet.clone().unwrap();
    assert!(s.starts_with("..."));
    assert!(s.ends_with("..."));
    assert!(s.contains("needle"));
}

#[test]
fn search_checked_agrees_on_plain_text() {
    let tasks = sample_tasks();
    let r = search_tasks_checked("the", &tasks).unwrap();
    assert_eq!(r.len(), 2);
}

#[test]
fn result_row_splits_title_round_match() {
    let clock = Clock::read();
    let task = Task::new("Buy groceries");
    let row = result_row_at(&task, Some((4, 13)), false, 80, clock);
    assert_eq!(row.selector, "  ");
    assert_eq!(row.checkbox, "[ ]");
    assert_eq!(row.priority, "  ");
    assert_eq!(row.title_width, 65);
    assert_eq!(row.lead.as_deref(), Some("Buy "));
    assert_eq!(row.matched.as_deref(), Some("groceries"));
    assert_eq!(row.tail, None);
    assert_eq!(row.due, "");

    let row = result_row_at(&task, Some((0, 3)), true, 80, clock);
    assert_eq!(row.selector, "▶ ");
    assert_eq!(row.lead, None);
    assert_eq!(row.matched.as_deref(), Some("Buy"));
    assert_eq!(row.tail.as_deref(), Some(" groceries"));
}

#[test]
fn result_row_without_match_shortens_title() {
    let clock = Clock::read();
    let mut task = Task::new("A rather long title for a narrow list");
    task.priority = Priority::Urgent;
    let row = result_row_at(&task, None, false, 20, clock);
    assert_eq!(row.priority, "!!");
    assert_eq!(row.title_width, 10);
    assert_eq!(row.lead.as_deref(), Some("A rathe..."));
    assert!(row.matched.is_none() && row.tail.is_none());
}

#[test]
fn result_row_checked_refuses_a_split_character() {
    let clock = Clock::read();
    let task = Task::new("née");
    assert!(result_row_checked_at(&task, Some((2, 4)), false, 80, clock).is_none());
    assert!(result_row_checked_at(&task, Some((1, 3)), false, 80, clock).is_some());
}

#[test]
fn snippet_line_splits_round_the_query() {
    let line = snippet_line("...call the Dentist today", "dentist");
    assert_eq!(line.head, "...call the ");
    assert_eq!(line.found, Some(("Dentist".to_string(), " today".to_string())));
    let line = snippet_line("abc", "zz");
    assert_eq!(line.head, "abc");
    assert_eq!(line.found, None);
}

#[test]
fn snippet_line_checked_refuses_a_split_character() {
    let line = ratado::ui::search::snippet_line_checked("say Hello there", "hello").unwrap();
    assert_eq!(line.head, "say ");
    // "İ" lower-cases to two characters, so the match offset no longer fits the snippet itself.
    assert!(ratado::ui::search::snippet_line_checked("İİx", "x").is_none());
}
