use ratado::keys::{KeyCode, KeyEvent, KeyModifiers};
use ratado::models::{Priority, Project, Task};
use ratado::storage::Tag;
use ratado::ui::dialogs::quick_capture::{highlight_input, BadgeKind, PieceKind, SuggestionMode, SuggestionTone};
use ratado::ui::layout::Area;
use ratado::ui::dialogs::{parse_capture_input, QuickCaptureAction, QuickCaptureDialog};
use ratado::utils::datetime::Clock;

fn key(code: KeyCode) -> KeyEvent {
    KeyEvent::new(code, KeyModifiers::none())
}

fn make_dialog_with_projects() -> QuickCaptureDialog {
    let projects = vec![
        Project::new("Backend"),
        Project::new("Frontend"),
        Project::new("Design"),
    ];
    QuickCaptureDialog::new(projects, vec![], &[])
}

fn tag(id: &str, name: &str) -> Tag {
    Tag { id: id.to_string(), name: name.to_string() }
}

fn token(dialog: &QuickCaptureDialog) -> Option<(SuggestionMode, String, usize, usize)> {
    dialog
        .active_token_at_cursor()
        .map(|(m, p, s, e)| (m, p.into_iter().collect::<String>(), s, e))
}

#[test]
fn test_parse_title_only() {
    let result = parse_capture_input("Buy groceries");
    assert_eq!(result.title, "Buy groceries");
    assert!(result.project_name.is_none());
    assert!(result.tags.is_empty());
    assert!(result.priority.is_none());
    assert!(result.due_date_text.is_none());
}

#[test]
fn test_parse_with_project() {
    let result = parse_capture_input("Fix bug @Backend");
    assert_eq!(result.title, "Fix bug");
    assert_eq!(result.project_name.as_deref(), Some("Backend"));
}

#[test]
fn test_parse_with_tags() {
    let result = parse_capture_input("Fix bug #urgent #backend");
    assert_eq!(result.title, "Fix bug");
    assert_eq!(result.tags, vec!["urgent", "backend"]);
}

#[test]
fn test_parse_with_priority() {
    let result = parse_capture_input("Fix bug !1");
    assert_eq!(result.title, "Fix bug");
    assert_eq!(result.priority, Some(Priority::Urgent));
}

#[test]
fn test_parse_priority_values() {
    assert_eq!(parse_capture_input("t !1").priority, Some(Priority::Urgent));
    assert_eq!(parse_capture_input("t !2").priority, Some(Priority::High));
    assert_eq!(parse_capture_input("t !3").priority, Some(Priority::Medium));
    assert_eq!(parse_capture_input("t !4").priority, Some(Priority::Low));
}

#[test]
fn test_parse_invalid_priority_becomes_title() {
    let result = parse_capture_input("t !5");
    assert_eq!(result.title, "t !5");
    assert!(result.priority.is_none());
}

#[test]
fn test_parse_with_due_date() {
    let result = parse_capture_input("Fix bug due:tomorrow");
    assert_eq!(result.title, "Fix bug");
    assert_eq!(result.due_date_text.as_deref(), Some("tomorrow"));
    assert!(result.due_date.is_some());
}

#[test]
fn test_parse_full_syntax() {
    let result = parse_capture_input("Fix login bug @Backend #bug !1 due:tomorrow");
    assert_eq!(result.title, "Fix login bug");
    assert_eq!(result.project_name.as_deref(), Some("Backend"));
    assert_eq!(result.tags, vec!["bug"]);
    assert_eq!(result.priority, Some(Priority::Urgent));
    assert_eq!(result.due_date_text.as_deref(), Some("tomorrow"));
}

#[test]
fn test_parse_escaped_at() {
    let result = parse_capture_input("Email \\@john about meeting");
    assert_eq!(result.title, "Email @john about meeting");
    assert!(result.project_name.is_none());
}

#[test]
fn test_parse_escaped_hash() {
    let result = parse_capture_input("Fix issue \\#123");
    assert_eq!(result.title, "Fix issue #123");
    assert!(result.tags.is_empty());
}

#[test]
fn test_parse_empty_input() {
    let result = parse_capture_input("");
    assert_eq!(result.title, "");
    assert!(result.project_name.is_none());
    assert!(result.tags.is_empty());
    assert!(result.priority.is_none());
}

#[test]
fn test_parse_only_tokens() {
    let result = parse_capture_input("@Backend #bug !1 due:tomorrow");
    assert_eq!(result.title, "");
    assert_eq!(result.project_name.as_deref(), Some("Backend"));
    assert_eq!(result.tags, vec!["bug"]);
    assert_eq!(result.priority, Some(Priority::Urgent));
}

#[test]
fn test_parse_empty_at_hash_ignored() {
    let result = parse_capture_input("hello @ # world");
    assert_eq!(result.title, "hello @ # world");
}

#[test]
fn test_fuzzy_match_exact() {
    let dialog = make_dialog_with_projects();
    let matched = dialog.fuzzy_match_project("Backend");
    assert_eq!(matched.map(|p| p.name), Some("Backend".to_string()));
}

#[test]
fn test_fuzzy_match_prefix() {
    let dialog = make_dialog_with_projects();
    let matched = dialog.fuzzy_match_project("Back");
    assert_eq!(matched.map(|p| p.name), Some("Backend".to_string()));
}

#[test]
fn test_fuzzy_match_case_insensitive() {
    let dialog = make_dialog_with_projects();
    let matched = dialog.fuzzy_match_project("backend");
    assert_eq!(matched.map(|p| p.name), Some("Backend".to_string()));
}

#[test]
fn test_fuzzy_match_substring() {
    let dialog = make_dialog_with_projects();
    let matched = dialog.fuzzy_match_project("end");
    assert_eq!(matched.map(|p| p.name), Some("Backend".to_string()));
}

#[test]
fn test_fuzzy_match_no_match() {
    let dialog = make_dialog_with_projects();
    let matched = dialog.fuzzy_match_project("xyz");
    assert!(matched.is_none());
}

#[test]
fn test_handle_key_enter_submits() {
    let mut dialog = QuickCaptureDialog::new(vec![], vec![], &[]);
    assert_eq!(dialog.handle_key(key(KeyCode::Enter)), QuickCaptureAction::Submit);
}

#[test]
fn test_handle_key_esc_cancels() {
    let mut dialog = QuickCaptureDialog::new(vec![], vec![], &[]);
    assert_eq!(dialog.handle_key(key(KeyCode::Esc)), QuickCaptureAction::Cancel);
}

#[test]
fn test_handle_key_tab_expands() {
    let mut dialog = QuickCaptureDialog::new(vec![], vec![], &[]);
    assert_eq!(dialog.handle_key(key(KeyCode::Tab)), QuickCaptureAction::ExpandToFull);
}

#[test]
fn test_handle_key_char_input() {
    let mut dialog = QuickCaptureDialog::new(vec![], vec![], &[]);
    assert_eq!(dialog.handle_key(key(KeyCode::Char('H'))), QuickCaptureAction::Nothing);
    assert_eq!(dialog.input.value(), "H");
}

#[test]
fn test_to_task_empty_title_returns_none() {
    let dialog = QuickCaptureDialog::new(vec![], vec![], &[]);
    assert!(dialog.to_task().is_none());
}

#[test]
fn test_to_task_with_parsed_data() {
    let mut dialog = make_dialog_with_projects();
    dialog.input.set_value("Fix bug @Backend #urgent !1 due:tomorrow");
    dialog.reparse(Clock::read());

    let task = dialog.to_task().unwrap();
    assert_eq!(task.title, "Fix bug");
    assert_eq!(task.priority, Priority::Urgent);
    assert_eq!(task.tags, vec!["urgent"]);
    assert!(task.project_id.is_some());
    assert!(task.due_date.is_some());
}

#[test]
fn test_to_add_task_dialog_populates_fields() {
    let mut dialog = make_dialog_with_projects();
    dialog.input.set_value("Fix bug @Backend #urgent !2 due:tomorrow");
    dialog.reparse(Clock::read());

    let add_dialog = dialog.to_add_task_dialog();
    assert_eq!(add_dialog.title.value(), "Fix bug");
    assert_eq!(add_dialog.priority, Priority::High);
    assert!(add_dialog.project_id.is_some());
}

#[test]
fn test_active_token_at_cursor_project() {
    let mut dialog = make_dialog_with_projects();
    dialog.input.set_value("Fix @ba");
    let result = token(&dialog);
    assert!(result.is_some());
    let (mode, partial, start, end) = result.unwrap();
    assert_eq!(mode, SuggestionMode::Projects);
    assert_eq!(partial, "ba");
    assert_eq!(start, 4);
    assert_eq!(end, 7);
}

#[test]
fn test_active_token_at_cursor_tag() {
    let mut dialog = make_dialog_with_projects();
    dialog.input.set_value("Fix #ur");
    let result = token(&dialog);
    assert!(result.is_some());
    let (mode, partial, _, _) = result.unwrap();
    assert_eq!(mode, SuggestionMode::Tags);
    assert_eq!(partial, "ur");
}

#[test]
fn test_active_token_at_cursor_none() {
    let mut dialog = make_dialog_with_projects();
    dialog.input.set_value("Fix bug");
    assert!(token(&dialog).is_none());
}

#[test]
fn test_update_suggestions_projects() {
    let mut dialog = make_dialog_with_projects();
    dialog.input.set_value("Fix @b");
    dialog.reparse(Clock::read());
    dialog.update_suggestions();

    assert_eq!(dialog.suggestion_mode, SuggestionMode::Projects);
    assert!(dialog.suggestions.contains(&"Backend".to_string()));
    assert!(!dialog.suggestions.contains(&"Frontend".to_string()));
}

#[test]
fn test_update_suggestions_tags() {
    let tags = vec![tag("1", "urgent"), tag("2", "bug"), tag("3", "feature")];
    let mut dialog = QuickCaptureDialog::new(vec![], tags, &[]);
    dialog.input.set_value("Fix #urg");
    dialog.reparse(Clock::read());
    dialog.update_suggestions();

    assert_eq!(dialog.suggestion_mode, SuggestionMode::Tags);
    assert!(dialog.suggestions.contains(&"urgent".to_string()));
    assert_eq!(dialog.suggestions.len(), 1);
}

#[test]
fn test_update_suggestions_tags_project_scoped() {
    let projects = vec![Project::new("Backend")];
    let project_id = projects[0].id.clone();
    let tags = vec![tag("1", "api"), tag("2", "frontend"), tag("3", "auth")];
    let mut task = Task::new("API task");
    task.project_id = Some(project_id.clone());
    task.tags = vec!["api".to_string()];

    let mut dialog = QuickCaptureDialog::new(projects, tags, &[task]);
    dialog.explicit_project = Some(Project::new("Backend"));
    dialog.explicit_project.as_mut().unwrap().id = project_id;

    dialog.input.set_value("Fix #a");
    dialog.reparse(Clock::read());
    dialog.update_suggestions();

    assert_eq!(dialog.suggestion_mode, SuggestionMode::Tags);
    assert!(dialog.suggestions.len() >= 2);
    assert_eq!(dialog.suggestions[0], "api");
    assert_eq!(dialog.suggestions[1], "auth");
}

#[test]
fn test_accept_project_removes_token() {
    let mut dialog = make_dialog_with_projects();
    dialog.input.set_value("Fix @Back bug");
    dialog.input.move_home();
    for _ in 0..9 {
        dialog.input.move_right();
    }
    dialog.reparse(Clock::read());
    dialog.update_suggestions();

    assert!(!dialog.suggestions.is_empty());
    assert_eq!(dialog.suggestion_mode, SuggestionMode::Projects);

    dialog.accept_suggestion(Clock::read());

    assert!(dialog.explicit_project.is_some());
    assert_eq!(dialog.explicit_project.as_ref().unwrap().name, "Backend");
    assert!(!dialog.input.value().contains("@Back"));
    assert!(dialog.input.value().contains("Fix"));
    assert!(dialog.input.value().contains("bug"));
}

#[test]
fn test_accept_tag_replaces_token() {
    let tags = vec![tag("1", "urgent")];
    let mut dialog = QuickCaptureDialog::new(vec![], tags, &[]);
    dialog.input.set_value("Fix #ur bug");
    dialog.input.move_home();
    for _ in 0..6 {
        dialog.input.move_right();
    }
    dialog.reparse(Clock::read());
    dialog.update_suggestions();

    assert!(!dialog.suggestions.is_empty());
    assert_eq!(dialog.suggestion_mode, SuggestionMode::Tags);

    dialog.accept_suggestion(Clock::read());

    assert!(dialog.input.value().contains("#urgent"));
    assert!(!dialog.input.value().contains("#ur "));
}

#[test]
fn test_tab_accepts_suggestion() {
    let mut dialog = make_dialog_with_projects();
    dialog.handle_key(key(KeyCode::Char('@')));
    dialog.handle_key(key(KeyCode::Char('B')));

    assert!(!dialog.suggestions.is_empty());

    let action = dialog.handle_key(key(KeyCode::Tab));
    assert_eq!(action, QuickCaptureAction::Nothing);
    assert!(dialog.explicit_project.is_some());
}

#[test]
fn test_explicit_project_cleared_on_new_at() {
    let mut dialog = make_dialog_with_projects();
    dialog.explicit_project = Some(dialog.projects[0].clone());

    dialog.input.set_value("Fix @F");
    dialog.reparse(Clock::read());

    assert!(dialog.explicit_project.is_none());
}

#[test]
fn test_active_token_at_cursor_priority() {
    let mut dialog = make_dialog_with_projects();
    dialog.input.set_value("Fix !");
    let result = token(&dialog);
    assert!(result.is_some());
    let (mode, partial, start, end) = result.unwrap();
    assert_eq!(mode, SuggestionMode::Priorities);
    assert_eq!(partial, "");
    assert_eq!(start, 4);
    assert_eq!(end, 5);
}

#[test]
fn test_update_suggestions_priorities_all() {
    let mut dialog = make_dialog_with_projects();
    dialog.input.set_value("Fix !");
    dialog.reparse(Clock::read());
    dialog.update_suggestions();

    assert_eq!(dialog.suggestion_mode, SuggestionMode::Priorities);
    assert_eq!(dialog.suggestions.len(), 4);
    assert_eq!(dialog.suggestions, vec!["1", "2", "3", "4"]);
}

#[test]
fn test_update_suggestions_priorities_filtered() {
    let mut dialog = make_dialog_with_projects();
    dialog.input.set_value("Fix !2");
    dialog.reparse(Clock::read());
    dialog.update_suggestions();

    assert_eq!(dialog.suggestion_mode, SuggestionMode::Priorities);
    assert_eq!(dialog.suggestions.len(), 1);
    assert_eq!(dialog.suggestions[0], "2");
}

#[test]
fn test_accept_priority_replaces_token() {
    let mut dialog = make_dialog_with_projects();
    dialog.input.set_value("Fix ! bug");
    dialog.input.move_home();
    for _ in 0..5 {
        dialog.input.move_right();
    }
    dialog.reparse(Clock::read());
    dialog.update_suggestions();

    assert_eq!(dialog.suggestion_mode, SuggestionMode::Priorities);
    dialog.accept_suggestion(Clock::read());

    assert!(dialog.input.value().contains("!1"));
    assert!(dialog.input.value().contains("Fix"));
    assert!(dialog.input.value().contains("bug"));
}

#[test]
fn test_tab_accepts_priority_suggestion() {
    let mut dialog = make_dialog_with_projects();
    dialog.handle_key(key(KeyCode::Char('!')));

    assert_eq!(dialog.suggestion_mode, SuggestionMode::Priorities);
    assert_eq!(dialog.suggestions.len(), 4);

    dialog.handle_key(key(KeyCode::Down));
    assert_eq!(dialog.selected_suggestion, Some(1));

    let action = dialog.handle_key(key(KeyCode::Tab));
    assert_eq!(action, QuickCaptureAction::Nothing);
    assert!(dialog.input.value().contains("!2"));
}

#[test]
fn quick_capture_spacing_is_tidied() {
    let result = parse_capture_input("  many   spaces\there  ");
    assert_eq!(result.title, "many spaces here");
}

#[test]
fn quick_capture_last_tokens_win() {
    let result = parse_capture_input("x @One @Two !4 !1 due:today due:tomorrow");
    assert_eq!(result.project_name.as_deref(), Some("Two"));
    assert_eq!(result.priority, Some(Priority::Urgent));
    assert_eq!(result.due_date_text.as_deref(), Some("tomorrow"));
    assert_eq!(result.title, "x");
}

#[test]
fn quick_capture_bare_due_is_dropped() {
    let result = parse_capture_input("pay due: rent");
    assert_eq!(result.title, "pay rent");
    assert!(result.due_date_text.is_none());
}

#[test]
fn quick_capture_up_wraps_to_last() {
    let mut dialog = make_dialog_with_projects();
    dialog.handle_key(key(KeyCode::Char('!')));
    assert_eq!(dialog.selected_suggestion, Some(0));
    dialog.handle_key(key(KeyCode::Up));
    assert_eq!(dialog.selected_suggestion, Some(3));
    dialog.handle_key(key(KeyCode::Down));
    assert_eq!(dialog.selected_suggestion, Some(0));
}

#[test]
fn suggestion_dropdown_lists_priorities_by_name() {
    let mut dialog = make_dialog_with_projects();
    dialog.input.set_value("Fix !");
    dialog.reparse(Clock::read());
    dialog.update_suggestions();
    dialog.selected_suggestion = Some(1);
    let dialog_area = Area { x: 10, y: 5, width: 40, height: 5 };
    let screen = Area { x: 0, y: 0, width: 80, height: 24 };
    let (area, lines) = dialog.suggestion_dropdown(dialog_area, screen).unwrap();
    assert_eq!(area, Area { x: 10, y: 10, width: 40, height: 6 });
    let texts: Vec<&str> = lines.iter().map(|l| l.text.as_str()).collect();
    assert_eq!(texts, vec!["▲ Urgent", "△ High", "● Medium", "▽ Low"]);
    assert!(lines[1].selected && !lines[0].selected);
    assert_eq!(lines[3].tone, SuggestionTone::Low);

    let small = Area { x: 0, y: 0, width: 80, height: 15 };
    assert!(dialog.suggestion_dropdown(dialog_area, small).is_none());
}

#[test]
fn suggestion_dropdown_scrolls_to_the_highlight() {
    let names = ["a1", "a2", "a3", "a4", "a5", "a6", "a7"];
    let projects: Vec<Project> = names.iter().map(|n| Project::new(n)).collect();
    let mut dialog = QuickCaptureDialog::new(projects, vec![], &[]);
    dialog.input.set_value("x @a");
    dialog.reparse(Clock::read());
    dialog.update_suggestions();
    assert_eq!(dialog.suggestions.len(), 7);
    dialog.selected_suggestion = Some(6);
    let dialog_area = Area { x: 0, y: 0, width: 30, height: 3 };
    let screen = Area { x: 0, y: 0, width: 80, height: 24 };
    let (_, lines) = dialog.suggestion_dropdown(dialog_area, screen).unwrap();
    assert_eq!(lines.len(), 5);
    assert_eq!(lines[0].text, "◆ a3");
    assert_eq!(lines[4].text, "◆ a7");
    assert!(lines[4].selected);
}

#[test]
fn suggestion_dropdown_absent_without_suggestions() {
    let dialog = make_dialog_with_projects();
    let a = Area { x: 0, y: 0, width: 30, height: 3 };
    assert!(dialog.suggestion_dropdown(a, a).is_none());
}

#[test]
fn highlight_input_colours_tokens() {
    let pieces = highlight_input("Fix @Work #bug !1 !9 due:fri due: @");
    let got: Vec<(&str, PieceKind)> = pieces.iter().map(|p| (p.text.as_str(), p.kind)).collect();
    assert_eq!(
        got,
        vec![
            ("Fix", PieceKind::Plain),
            (" ", PieceKind::Space),
            ("@Work", PieceKind::Project),
            (" ", PieceKind::Space),
            ("#bug", PieceKind::Tag),
            (" ", PieceKind::Space),
            ("!1", PieceKind::Urgent),
            (" ", PieceKind::Space),
            ("!9", PieceKind::Plain),
            (" ", PieceKind::Space),
            ("due:fri", PieceKind::Due),
            (" ", PieceKind::Space),
            ("due:", PieceKind::Plain),
            (" ", PieceKind::Space),
            ("@", PieceKind::Plain),
        ]
    );
}

#[test]
fn highlight_input_keeps_empty_words() {
    let pieces = highlight_input("a  b");
    let got: Vec<&str> = pieces.iter().map(|p| p.text.as_str()).collect();
    assert_eq!(got, vec!["a", " ", "", " ", "b"]);
    assert_eq!(highlight_input("").len(), 1);
}

#[test]
fn badges_show_what_the_line_says() {

    let mut dialog = make_dialog_with_projects();
    dialog.input.set_value("Fix @Backend #ui !1 due:tomorrow");
    dialog.reparse(Clock::read());
    let badges: Vec<(String, BadgeKind)> = dialog.badges().into_iter().map(|b| (b.text, b.kind)).collect();
    assert_eq!(
        badges,
        vec![
            ("◆ Backend ".to_string(), BadgeKind::Project),
            ("▲ Urgent ".to_string(), BadgeKind::Urgent),
            ("#ui ".to_string(), BadgeKind::Tag),
            ("◐ tomorrow ".to_string(), BadgeKind::Due),
        ]
    );

    dialog.input.set_value("Fix @Nope due:someday");
    dialog.reparse(Clock::read());
    let badges: Vec<(String, BadgeKind)> = dialog.badges().into_iter().map(|b| (b.text, b.kind)).collect();
    assert_eq!(
        badges,
        vec![
            ("◆ Nope? ".to_string(), BadgeKind::UnknownProject),
            ("◐ someday ".to_string(), BadgeKind::DueUnread),
        ]
    );

    let empty = make_dialog_with_projects();
    let badges = empty.badges();
    assert_eq!(badges.len(), 1);
    assert_eq!(badges[0].text, "@project #tag !priority due:date");
}
