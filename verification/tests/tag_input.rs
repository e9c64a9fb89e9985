use ratado::keys::{KeyCode, KeyEvent};
use ratado::storage::Tag;
use ratado::ui::tag_input::{TagInput, TagInputWidget};

fn tag(id: &str, name: &str) -> Tag {
    Tag { id: id.to_string(), name: name.to_string() }
}

#[test]
fn tag_input_test_new_input() {
    let input = TagInput::new();
    assert!(input.tags().is_empty());
    assert!(input.input_value().is_empty());
}

#[test]
fn test_add_tag() {
    let mut input = TagInput::new();
    input.add_tag("work".to_string());
    input.add_tag("urgent".to_string());
    assert_eq!(input.tags(), &["work", "urgent"]);
}

#[test]
fn test_add_duplicate_tag() {
    let mut input = TagInput::new();
    input.add_tag("work".to_string());
    input.add_tag("Work".to_string());
    assert_eq!(input.tags().len(), 1);
}

#[test]
fn test_add_empty_tag() {
    let mut input = TagInput::new();
    input.add_tag("".to_string());
    input.add_tag("   ".to_string());
    assert!(input.tags().is_empty());
}

#[test]
fn test_remove_last_tag() {
    let mut input = TagInput::with_tags(vec!["a".to_string(), "b".to_string()]);
    input.remove_last_tag();
    assert_eq!(input.tags(), &["a"]);
}

#[test]
fn test_remove_tag_by_name() {
    let mut input = TagInput::with_tags(vec!["a".to_string(), "b".to_string(), "c".to_string()]);
    input.remove_tag("b");
    assert_eq!(input.tags(), &["a", "c"]);
}

#[test]
fn test_update_suggestions() {
    let all_tags = vec![tag("1", "work"), tag("2", "workout"), tag("3", "personal")];

    let mut input = TagInput::new();
    input.input.set_value("wor");
    input.update_suggestions(&all_tags);

    assert_eq!(input.suggestions.len(), 2);
    assert!(input.suggestions.contains(&"work".to_string()));
    assert!(input.suggestions.contains(&"workout".to_string()));
}

#[test]
fn test_suggestions_exclude_already_selected() {
    let all_tags = vec![tag("1", "work"), tag("2", "workout")];

    let mut input = TagInput::with_tags(vec!["work".to_string()]);
    input.input.set_value("wor");
    input.update_suggestions(&all_tags);

    assert_eq!(input.suggestions.len(), 1);
    assert!(input.suggestions.contains(&"workout".to_string()));
}

#[test]
fn tag_input_add_trims_and_ignores_case_duplicates() {
    let mut input = TagInput::new();
    input.add_tag("  home  ".to_string());
    input.add_tag("HOME".to_string());
    assert_eq!(input.tags(), &["home"]);
}

#[test]
fn tag_input_suggestions_are_case_insensitive_and_capped() {
    let all: Vec<Tag> = (0..8).map(|i| tag(&i.to_string(), &format!("Work{}", i))).collect();
    let mut input = TagInput::new();
    input.input.set_value("WORK");
    input.update_suggestions(&all);
    assert_eq!(input.suggestions.len(), 5);
    assert_eq!(input.suggestions[0], "Work0");
    assert_eq!(input.selected_suggestion().map(|s| s.as_str()), Some("Work0"));
}

#[test]
fn tag_input_empty_query_clears_suggestions() {
    let all = vec![tag("1", "work")];
    let mut input = TagInput::new();
    input.update_suggestions(&all);
    assert!(input.suggestions.is_empty());
    assert!(input.selected_suggestion().is_none());
}

#[test]
fn tag_input_keys_type_commit_and_remove() {
    let all = vec![tag("1", "work"), tag("2", "workout")];
    let mut input = TagInput::new();
    for c in "wo".chars() {
        assert!(input.handle_key(KeyEvent::plain(KeyCode::Char(c)), &all));
    }
    assert_eq!(input.suggestions.len(), 2);
    assert!(input.handle_key(KeyEvent::plain(KeyCode::Down), &all));
    assert_eq!(input.selected_suggestion().map(|s| s.as_str()), Some("workout"));
    assert!(input.handle_key(KeyEvent::plain(KeyCode::Down), &all));
    assert_eq!(input.selected_suggestion().map(|s| s.as_str()), Some("work"));
    assert!(input.handle_key(KeyEvent::plain(KeyCode::Up), &all));
    assert_eq!(input.selected_suggestion().map(|s| s.as_str()), Some("workout"));
    assert!(input.handle_key(KeyEvent::plain(KeyCode::Tab), &all));
    assert_eq!(input.tags(), &["workout"]);
    assert!(input.input_value().is_empty());
    assert!(!input.handle_key(KeyEvent::plain(KeyCode::Tab), &all));
    for c in "x y".chars() {
        input.handle_key(KeyEvent::plain(KeyCode::Char(c)), &all);
    }
    assert!(input.handle_key(KeyEvent::plain(KeyCode::Char(',')), &all));
    assert_eq!(input.tags(), &["workout", "x y"]);
    assert!(input.handle_key(KeyEvent::plain(KeyCode::Backspace), &all));
    assert_eq!(input.tags(), &["workout"]);
    assert!(!input.handle_key(KeyEvent::plain(KeyCode::Esc), &all));
}

#[test]
fn tag_input_tags_vec_copies() {
    let input = TagInput::with_tags(vec!["a".to_string()]);
    assert_eq!(input.tags_vec(), vec!["a".to_string()]);
    let w = TagInputWidget::new(&input).focused(true).label("Tags");
    assert!(w.focused);
    assert_eq!(w.label, Some("Tags"));
}
