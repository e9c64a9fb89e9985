use ratado::keys::{KeyCode, KeyEvent, KeyModifiers};
use ratado::models::{Filter, Priority, Project, SortOrder, Task};
use ratado::ui::dialogs::settings::DialogState;
use ratado::ui::dialogs::{
    ConfirmDialog, DeleteProjectChoice, DeleteProjectDialog, DialogAction, FilterSortDialog,
    FilterSortSection, MoveToProjectDialog, ProjectDialog, ProjectField, SettingsDialog,
    SettingsOption,
};

fn key(code: KeyCode) -> KeyEvent {
    KeyEvent::new(code, KeyModifiers::none())
}

#[test]
fn confirm_test_new_dialog() {
    let dialog = ConfirmDialog::new("Test", "Are you sure?");
    assert_eq!(dialog.title, "Test");
    assert_eq!(dialog.message, "Are you sure?");
    assert!(!dialog.selected_yes);
}

#[test]
fn test_delete_task_dialog() {
    let dialog = ConfirmDialog::delete_task("My Task");
    assert!(dialog.title.contains("Delete"));
    assert!(dialog.message.contains("My Task"));
    assert!(dialog.destructive);
}

#[test]
fn test_handle_key_yes() {
    let mut dialog = ConfirmDialog::new("Test", "Message");
    assert_eq!(dialog.handle_key(key(KeyCode::Char('y'))), DialogAction::Submit);
}

#[test]
fn test_handle_key_no() {
    let mut dialog = ConfirmDialog::new("Test", "Message");
    assert_eq!(dialog.handle_key(key(KeyCode::Char('n'))), DialogAction::Cancel);
}

#[test]
fn confirm_test_handle_key_escape() {
    let mut dialog = ConfirmDialog::new("Test", "Message");
    assert_eq!(dialog.handle_key(key(KeyCode::Esc)), DialogAction::Cancel);
}

#[test]
fn test_handle_key_toggle() {
    let mut dialog = ConfirmDialog::new("Test", "Message");
    assert!(!dialog.selected_yes);
    dialog.handle_key(key(KeyCode::Left));
    assert!(dialog.selected_yes);
    dialog.handle_key(key(KeyCode::Left));
    assert!(!dialog.selected_yes);
}

#[test]
fn test_handle_key_enter_yes() {
    let mut dialog = ConfirmDialog::new("Test", "Message");
    dialog.selected_yes = true;
    assert_eq!(dialog.handle_key(key(KeyCode::Enter)), DialogAction::Submit);
}

#[test]
fn test_handle_key_enter_no() {
    let mut dialog = ConfirmDialog::new("Test", "Message");
    dialog.selected_yes = false;
    assert_eq!(dialog.handle_key(key(KeyCode::Enter)), DialogAction::Cancel);
}

#[test]
fn confirm_builders_and_delete_message() {
    let d = ConfirmDialog::new("T", "M").with_confirm_text("Go").with_cancel_text("Stop").destructive();
    assert_eq!(d.confirm_text, "Go");
    assert_eq!(d.cancel_text, "Stop");
    assert!(d.destructive);
    let del = ConfirmDialog::delete_task("Buy milk");
    assert_eq!(del.message, "\"Buy milk\"\n\nThis action cannot be undone.");
    assert_eq!(del.title, "Delete Task?");
    assert_eq!(del.confirm_text, "Delete");
}

fn work_dialog() -> DeleteProjectDialog {
    DeleteProjectDialog::new("proj-1".to_string(), "Work".to_string(), 5)
}

#[test]
fn delete_project_test_new_dialog() {
    let dialog = work_dialog();
    assert_eq!(dialog.project_id, "proj-1");
    assert_eq!(dialog.project_name, "Work");
    assert_eq!(dialog.task_count, 5);
    assert_eq!(dialog.selected, DeleteProjectChoice::MoveToInbox);
}

#[test]
fn test_move_shortcut() {
    let mut dialog = work_dialog();
    assert_eq!(dialog.handle_key(key(KeyCode::Char('m'))), DialogAction::Submit);
    assert_eq!(dialog.selected, DeleteProjectChoice::MoveToInbox);
}

#[test]
fn test_delete_shortcut() {
    let mut dialog = work_dialog();
    assert_eq!(dialog.handle_key(key(KeyCode::Char('d'))), DialogAction::Submit);
    assert_eq!(dialog.selected, DeleteProjectChoice::DeleteTasks);
}

#[test]
fn test_cancel_shortcut() {
    let mut dialog = work_dialog();
    assert_eq!(dialog.handle_key(key(KeyCode::Esc)), DialogAction::Cancel);
}

#[test]
fn delete_project_test_navigation() {
    let mut dialog = work_dialog();
    assert_eq!(dialog.selected, DeleteProjectChoice::MoveToInbox);
    dialog.handle_key(key(KeyCode::Down));
    assert_eq!(dialog.selected, DeleteProjectChoice::DeleteTasks);
    dialog.handle_key(key(KeyCode::Down));
    assert_eq!(dialog.selected, DeleteProjectChoice::Cancel);
    dialog.handle_key(key(KeyCode::Up));
    assert_eq!(dialog.selected, DeleteProjectChoice::DeleteTasks);
}

#[test]
fn delete_project_enter_on_cancel_cancels() {
    let mut dialog = work_dialog();
    dialog.handle_key(key(KeyCode::Up));
    assert_eq!(dialog.choice(), DeleteProjectChoice::Cancel);
    assert_eq!(dialog.handle_key(key(KeyCode::Enter)), DialogAction::Cancel);
    assert_eq!(DeleteProjectChoice::default(), DeleteProjectChoice::MoveToInbox);
}

#[test]
fn filter_sort_test_new_dialog() {
    let dialog = FilterSortDialog::new(&Filter::Pending, &SortOrder::PriorityDesc, &[]);
    assert_eq!(dialog.filter_index, 1);
    assert_eq!(dialog.sort_index, 1);
}

#[test]
fn filter_sort_test_navigation_down() {
    let mut dialog = FilterSortDialog::default();
    assert_eq!(dialog.filter_index, 0);
    dialog.handle_key(key(KeyCode::Down));
    assert_eq!(dialog.filter_index, 1);
}

#[test]
fn filter_sort_test_navigation_up() {
    let mut dialog = FilterSortDialog::new(&Filter::Completed, &SortOrder::DueDateAsc, &[]);
    assert_eq!(dialog.filter_index, 2);
    dialog.handle_key(key(KeyCode::Up));
    assert_eq!(dialog.filter_index, 1);
}

#[test]
fn test_section_switch() {
    let mut dialog = FilterSortDialog::default();
    assert_eq!(dialog.section, FilterSortSection::Filter);
    dialog.handle_key(key(KeyCode::Tab));
    assert_eq!(dialog.section, FilterSortSection::Sort);
    dialog.handle_key(key(KeyCode::Tab));
    assert_eq!(dialog.section, FilterSortSection::Filter);
}

#[test]
fn filter_sort_test_escape_cancels() {
    let mut dialog = FilterSortDialog::default();
    assert_eq!(dialog.handle_key(key(KeyCode::Esc)), DialogAction::Cancel);
}

#[test]
fn filter_sort_test_enter_submits() {
    let mut dialog = FilterSortDialog::default();
    assert_eq!(dialog.handle_key(key(KeyCode::Enter)), DialogAction::Submit);
}

#[test]
fn filter_sort_counts_and_selection() {
    let mut done = Task::new("done");
    done.complete();
    let mut high = Task::new("high");
    high.priority = Priority::High;
    let tasks = vec![Task::new("a"), done, high];
    let mut dialog = FilterSortDialog::new(&Filter::ByPriority(Priority::Low), &SortOrder::Alphabetical, &tasks);
    assert_eq!(dialog.filter_index, 9);
    assert!(matches!(dialog.selected_filter(), Filter::ByPriority(Priority::Low)));
    assert_eq!(dialog.sort_index, 3);
    assert_eq!(dialog.filter_counts, vec![3, 2, 1, 0, 0, 0, 0, 1, 2, 0]);
    dialog.handle_key(key(KeyCode::Home));
    assert!(matches!(dialog.selected_filter(), Filter::All));
    dialog.handle_key(key(KeyCode::End));
    assert!(matches!(dialog.selected_filter(), Filter::ByPriority(Priority::Low)));
    dialog.handle_key(key(KeyCode::Tab));
    dialog.handle_key(key(KeyCode::Home));
    assert_eq!(dialog.selected_sort(), SortOrder::DueDateAsc);
    dialog.handle_key(key(KeyCode::Down));
    dialog.handle_key(key(KeyCode::Down));
    dialog.handle_key(key(KeyCode::Down));
    dialog.handle_key(key(KeyCode::Down));
    assert_eq!(dialog.selected_sort(), SortOrder::Alphabetical);
}

#[test]
fn project_test_new_dialog() {
    let dialog = ProjectDialog::new();
    assert!(dialog.name.value().is_empty());
    assert!(dialog.editing_project_id.is_none());
    assert!(!dialog.is_editing());
}

#[test]
fn test_from_project() {
    let project = Project::with_style("Work", "#e74c3c", "📋");
    let dialog = ProjectDialog::from_project(&project);
    assert_eq!(dialog.name.value(), "Work");
    assert_eq!(dialog.selected_color, 1);
    assert_eq!(dialog.selected_icon, 1);
    assert!(dialog.is_editing());
}

#[test]
fn test_to_project_empty_name() {
    let dialog = ProjectDialog::new();
    assert!(dialog.to_project().is_none());
}

#[test]
fn test_to_project_with_name() {
    let mut dialog = ProjectDialog::new();
    dialog.name.set_value("Home");
    dialog.selected_color = 2;
    dialog.selected_icon = 2;
    let project = dialog.to_project().unwrap();
    assert_eq!(project.name, "Home");
    assert_eq!(project.color, "#2ecc71");
    assert_eq!(project.icon, "🏠");
}

#[test]
fn project_test_field_navigation() {
    let field = ProjectField::Name;
    assert_eq!(field.next(), ProjectField::Color);
    assert_eq!(field.prev(), ProjectField::Submit);
}

#[test]
fn project_test_handle_key_escape() {
    let mut dialog = ProjectDialog::new();
    assert_eq!(dialog.handle_key(key(KeyCode::Esc)), DialogAction::Cancel);
}

#[test]
fn project_test_handle_key_tab() {
    let mut dialog = ProjectDialog::new();
    assert_eq!(dialog.focused_field, ProjectField::Name);
    dialog.handle_key(key(KeyCode::Tab));
    assert_eq!(dialog.focused_field, ProjectField::Color);
}

#[test]
fn project_dialog_keys_edit_fields() {
    let mut dialog = ProjectDialog::new();
    for c in " Garden ".chars() {
        dialog.handle_key(key(KeyCode::Char(c)));
    }
    dialog.handle_key(key(KeyCode::Tab));
    dialog.handle_key(key(KeyCode::Left));
    assert_eq!(dialog.selected_color, 7);
    dialog.handle_key(key(KeyCode::Char('3')));
    assert_eq!(dialog.selected_color, 2);
    dialog.handle_key(key(KeyCode::Char('9')));
    assert_eq!(dialog.selected_color, 2);
    dialog.handle_key(key(KeyCode::Tab));
    dialog.handle_key(key(KeyCode::Right));
    assert_eq!(dialog.selected_icon, 1);
    assert_eq!(dialog.handle_key(KeyEvent::new(KeyCode::Enter, KeyModifiers::control())), DialogAction::Submit);
    let p = dialog.to_project().unwrap();
    assert_eq!(p.name, "Garden");
    assert_eq!(p.color, "#2ecc71");
    assert_eq!(p.icon, "📋");
    assert_eq!(p.id.len(), 36);
}

#[test]
fn settings_test_new_dialog() {
    let dialog = SettingsDialog::new();
    assert_eq!(dialog.selected_index, 0);
    assert_eq!(dialog.state, DialogState::Menu);
}

#[test]
fn settings_test_navigation() {
    let mut dialog = SettingsDialog::new();
    assert_eq!(dialog.selected_index, 0);
    dialog.handle_key(key(KeyCode::Down));
    assert_eq!(dialog.selected_index, 1);
    dialog.handle_key(key(KeyCode::Up));
    assert_eq!(dialog.selected_index, 0);
}

#[test]
fn test_enter_confirmation() {
    let mut dialog = SettingsDialog::new();
    let action = dialog.handle_key(key(KeyCode::Enter));
    assert_eq!(action, DialogAction::Nothing);
    assert_eq!(dialog.state, DialogState::Confirming);
}

#[test]
fn test_cancel_confirmation() {
    let mut dialog = SettingsDialog::new();
    dialog.handle_key(key(KeyCode::Enter));
    assert_eq!(dialog.state, DialogState::Confirming);
    let action = dialog.handle_key(key(KeyCode::Char('n')));
    assert_eq!(action, DialogAction::Nothing);
    assert_eq!(dialog.state, DialogState::Menu);
}

#[test]
fn test_confirm_with_y() {
    let mut dialog = SettingsDialog::new();
    dialog.handle_key(key(KeyCode::Enter));
    let action = dialog.handle_key(key(KeyCode::Char('y')));
    assert_eq!(action, DialogAction::Submit);
}

#[test]
fn test_escape_closes() {
    let mut dialog = SettingsDialog::new();
    assert_eq!(dialog.handle_key(key(KeyCode::Esc)), DialogAction::Cancel);
}

#[test]
fn settings_options_and_confirmation() {
    let mut dialog = SettingsDialog::new();
    dialog.handle_key(key(KeyCode::Down));
    assert_eq!(dialog.selected_option(), Some(SettingsOption::ResetDatabase));
    dialog.handle_key(key(KeyCode::Enter));
    assert_eq!(dialog.confirmed_option(), Some(SettingsOption::ResetDatabase));
    dialog.handle_key(key(KeyCode::Tab));
    assert_eq!(dialog.handle_key(key(KeyCode::Enter)), DialogAction::Submit);
    assert_eq!(SettingsOption::DeleteCompletedTasks.label(), "Delete all completed tasks");
    assert!(SettingsOption::ResetDatabase.is_destructive());
}

fn sample_projects() -> Vec<Project> {
    vec![
        Project { id: "inbox".to_string(), name: "Inbox".to_string(), color: "#3498db".to_string(), icon: "📥".to_string(), created_at: 0 },
        Project { id: "work".to_string(), name: "Work".to_string(), color: "#e74c3c".to_string(), icon: "💼".to_string(), created_at: 0 },
        Project { id: "personal".to_string(), name: "Personal".to_string(), color: "#2ecc71".to_string(), icon: "🏠".to_string(), created_at: 0 },
    ]
}

#[test]
fn move_to_project_test_new_dialog() {
    let dialog = MoveToProjectDialog::new(sample_projects(), "task-1".to_string(), None);
    assert_eq!(dialog.selected_index, 0);
    assert_eq!(dialog.task_id, "task-1");
}

#[test]
fn test_new_dialog_with_current_project() {
    let dialog = MoveToProjectDialog::new(sample_projects(), "task-1".to_string(), Some("work"));
    assert_eq!(dialog.selected_index, 1);
}

#[test]
fn move_to_project_test_navigation_down() {
    let mut dialog = MoveToProjectDialog::new(sample_projects(), "task-1".to_string(), None);
    assert_eq!(dialog.selected_index, 0);
    dialog.handle_key(key(KeyCode::Down));
    assert_eq!(dialog.selected_index, 1);
    dialog.handle_key(key(KeyCode::Char('j')));
    assert_eq!(dialog.selected_index, 2);
    dialog.handle_key(key(KeyCode::Down));
    assert_eq!(dialog.selected_index, 2);
}

#[test]
fn move_to_project_test_navigation_up() {
    let mut dialog = MoveToProjectDialog::new(sample_projects(), "task-1".to_string(), Some("personal"));
    assert_eq!(dialog.selected_index, 2);
    dialog.handle_key(key(KeyCode::Up));
    assert_eq!(dialog.selected_index, 1);
    dialog.handle_key(key(KeyCode::Char('k')));
    assert_eq!(dialog.selected_index, 0);
    dialog.handle_key(key(KeyCode::Up));
    assert_eq!(dialog.selected_index, 0);
}

#[test]
fn move_to_project_test_escape_cancels() {
    let mut dialog = MoveToProjectDialog::new(sample_projects(), "task-1".to_string(), None);
    assert_eq!(dialog.handle_key(key(KeyCode::Esc)), DialogAction::Cancel);
}

#[test]
fn move_to_project_test_enter_submits() {
    let mut dialog = MoveToProjectDialog::new(sample_projects(), "task-1".to_string(), None);
    assert_eq!(dialog.handle_key(key(KeyCode::Enter)), DialogAction::Submit);
}

#[test]
fn test_selected_project() {
    let mut dialog = MoveToProjectDialog::new(sample_projects(), "task-1".to_string(), None);
    assert_eq!(dialog.selected_project().unwrap().id, "inbox");
    dialog.handle_key(key(KeyCode::Down));
    assert_eq!(dialog.selected_project().unwrap().id, "work");
    assert_eq!(dialog.selected_project_id(), Some("work".to_string()));
}

#[test]
fn test_home_end_navigation() {
    let mut dialog = MoveToProjectDialog::new(sample_projects(), "task-1".to_string(), Some("work"));
    assert_eq!(dialog.selected_index, 1);
    dialog.handle_key(key(KeyCode::End));
    assert_eq!(dialog.selected_index, 2);
    dialog.handle_key(key(KeyCode::Home));
    assert_eq!(dialog.selected_index, 0);
}

#[test]
fn move_to_project_unknown_current_project_selects_first() {
    let dialog = MoveToProjectDialog::new(sample_projects(), "t".to_string(), Some("nope"));
    assert_eq!(dialog.selected_index, 0);
    let empty = MoveToProjectDialog::new(Vec::new(), "t".to_string(), None);
    assert!(empty.selected_project_id().is_none());
}
