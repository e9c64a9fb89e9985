use ratado::keys::{KeyCode, KeyEvent, KeyModifiers};
use ratado::models::{Priority, Task};
use ratado::ui::description_textarea::DescriptionTextArea;
use ratado::ui::dialogs::due_date::{parse_due_date, parse_due_date_at};
use ratado::utils::datetime::Clock;
use ratado::ui::dialogs::{AddTaskDialog, AddTaskField, DialogAction};
use ratado::utils::datetime::{format_due_date, local_day_of};

#[test]
fn add_task_test_new_dialog() {
    let dialog = AddTaskDialog::new();
    assert!(dialog.title.value().is_empty());
    assert!(dialog.editing_task_id.is_none());
    assert!(!dialog.is_editing());
}

#[test]
fn test_from_task() {
    let mut task = Task::new("Test Task");
    task.description = Some("A description".to_string());
    task.priority = Priority::High;

    let dialog = AddTaskDialog::from_task(&task);
    assert_eq!(dialog.title.value(), "Test Task");
    assert_eq!(dialog.description.text(), "A description");
    assert_eq!(dialog.priority, Priority::High);
    assert!(dialog.is_editing());
}

#[test]
fn test_to_task_empty_title() {
    let dialog = AddTaskDialog::new();
    assert!(dialog.to_task().is_none());
}

#[test]
fn test_to_task_with_title() {
    let mut dialog = AddTaskDialog::new();
    dialog.title.set_value("My Task");
    dialog.priority = Priority::Urgent;

    let task = dialog.to_task().unwrap();
    assert_eq!(task.title, "My Task");
    assert_eq!(task.priority, Priority::Urgent);
}

#[test]
fn test_parse_due_date_today() {
    let date = parse_due_date("today");
    assert!(date.is_some());
}

#[test]
fn test_parse_due_date_iso() {
    let date = parse_due_date("2025-12-31");
    assert!(date.is_some());
    let d = date.unwrap();
    // 2025-12-31 is day 20453 since the epoch.
    assert_eq!(local_day_of(d, 0), 20453);
}

#[test]
fn test_parse_due_date_empty() {
    assert!(parse_due_date("").is_none());
}

#[test]
fn add_task_test_field_navigation() {
    let field = AddTaskField::Title;
    assert_eq!(field.next(), AddTaskField::Description);
    assert_eq!(field.prev(), AddTaskField::Submit);
}

#[test]
fn add_task_test_handle_key_escape() {
    let mut dialog = AddTaskDialog::new();
    let key = KeyEvent::new(KeyCode::Esc, KeyModifiers::none());
    assert_eq!(dialog.handle_key(key), DialogAction::Cancel);
}

#[test]
fn add_task_test_handle_key_tab() {
    let mut dialog = AddTaskDialog::new();
    assert_eq!(dialog.focused_field, AddTaskField::Title);

    let key = KeyEvent::new(KeyCode::Tab, KeyModifiers::none());
    dialog.handle_key(key);
    assert_eq!(dialog.focused_field, AddTaskField::Description);
}

#[test]
fn add_task_fields_cycle_back_to_title() {
    let mut field = AddTaskField::Title;
    for _ in 0..6 {
        field = field.next();
    }
    assert_eq!(field, AddTaskField::Title);
    assert_eq!(AddTaskField::Title.next().prev(), AddTaskField::Title);
}

#[test]
fn add_task_typed_title_becomes_task() {
    let mut dialog = AddTaskDialog::new();
    for c in "  Call Bob ".chars() {
        dialog.handle_key(KeyEvent::new(KeyCode::Char(c), KeyModifiers::none()));
    }
    let task = dialog.to_task().unwrap();
    assert_eq!(task.title, "Call Bob");
    assert!(task.due_date.is_none());
    assert_eq!(format_due_date(task.due_date), "");
}

#[test]
fn add_task_control_enter_submits() {
    let mut dialog = AddTaskDialog::new();
    let key = KeyEvent::new(KeyCode::Enter, KeyModifiers::control());
    assert_eq!(dialog.handle_key(key), DialogAction::Submit);
}

#[test]
fn to_task_keeps_trimmed_description_and_drops_blank_one() {
    let mut dialog = AddTaskDialog::new();
    dialog.title.set_value("Write report");
    dialog.description = DescriptionTextArea::with_text("  first draft \n");
    let task = dialog.to_task().unwrap();
    assert_eq!(task.description.as_deref(), Some("first draft"));
    assert_eq!(task.created_at, task.updated_at);
    assert!(task.completed_at.is_none());

    dialog.description = DescriptionTextArea::with_text("   \n  ");
    let task = dialog.to_task().unwrap();
    assert!(task.description.is_none());
}

#[test]
fn due_date_input_ignores_ascii_case() {
    let clock = Clock::at(1_750_000_000_000_000, 0);
    assert!(parse_due_date_at("tomorrow", clock).is_some());
    assert_eq!(parse_due_date_at("TOMORROW", clock), parse_due_date_at("tomorrow", clock));
    assert_eq!(parse_due_date_at("ToMoRrOw", clock), parse_due_date_at("+1d", clock));
    assert_eq!(parse_due_date_at("+1W", clock), parse_due_date_at("+7d", clock));
}
