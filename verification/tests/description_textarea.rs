use ratado::keys::{KeyCode, KeyEvent, KeyModifiers};
use ratado::ui::description_textarea::{CellKind, DescriptionTextArea, TextAreaAction};

#[test]
fn test_new_textarea() {
    let ta = DescriptionTextArea::new();
    assert!(ta.is_empty());
    assert!(ta.links().is_empty());
}

#[test]
fn test_with_text() {
    let ta = DescriptionTextArea::with_text("Hello world");
    assert_eq!(ta.text(), "Hello world");
    assert!(!ta.is_empty());
}

#[test]
fn test_detect_links() {
    let ta = DescriptionTextArea::with_text("Check https://example.com for info");
    let links = ta.links();
    assert_eq!(links.len(), 1);
    assert_eq!(links[0], "https://example.com");
}

#[test]
fn test_detect_multiple_links() {
    let ta = DescriptionTextArea::with_text("Visit https://one.com and http://two.com for more");
    let links = ta.links();
    assert_eq!(links.len(), 2);
    assert!(links.iter().any(|l| l == "https://one.com"));
    assert!(links.iter().any(|l| l == "http://two.com"));
}

#[test]
fn test_multiline_links() {
    let ta = DescriptionTextArea::with_text(
        "First line https://first.com\nSecond line https://second.com",
    );
    let links = ta.links();
    assert_eq!(links.len(), 2);
}

#[test]
fn test_no_links() {
    let ta = DescriptionTextArea::with_text("Just plain text without any links");
    assert!(ta.links().is_empty());
}

#[test]
fn test_set_text() {
    let mut ta = DescriptionTextArea::new();
    ta.set_text("New content with https://link.com");
    assert_eq!(ta.text(), "New content with https://link.com");
    assert_eq!(ta.links().len(), 1);
}

#[test]
fn test_tab_moves_to_next_field() {
    let mut ta = DescriptionTextArea::new();
    let key = KeyEvent::new(KeyCode::Tab, KeyModifiers::none());
    assert_eq!(ta.handle_key(key), TextAreaAction::NextField);
}

#[test]
fn test_backtab_moves_to_prev_field() {
    let mut ta = DescriptionTextArea::new();
    let key = KeyEvent::new(KeyCode::BackTab, KeyModifiers::shift());
    assert_eq!(ta.handle_key(key), TextAreaAction::PrevField);
}

#[test]
fn test_insert_char() {
    let mut ta = DescriptionTextArea::new();
    let key = KeyEvent::new(KeyCode::Char('a'), KeyModifiers::none());
    ta.handle_key(key);
    assert_eq!(ta.text(), "a");
}

#[test]
fn test_insert_newline() {
    let mut ta = DescriptionTextArea::with_text("Hello");
    ta.cursor_col = 5;
    let key = KeyEvent::new(KeyCode::Enter, KeyModifiers::none());
    ta.handle_key(key);
    assert_eq!(ta.text(), "Hello\n");
}

#[test]
fn test_backspace() {
    let mut ta = DescriptionTextArea::with_text("Hello");
    ta.cursor_col = 5;
    let key = KeyEvent::new(KeyCode::Backspace, KeyModifiers::none());
    ta.handle_key(key);
    assert_eq!(ta.text(), "Hell");
}

#[test]
fn description_textarea_test_move_word_left() {
    let mut ta = DescriptionTextArea::with_text("Hello world test");
    ta.cursor_col = 16;

    let key = KeyEvent::new(KeyCode::Left, KeyModifiers::alt());
    ta.handle_key(key);
    assert_eq!(ta.cursor_col, 12);

    ta.handle_key(key);
    assert_eq!(ta.cursor_col, 6);

    ta.handle_key(key);
    assert_eq!(ta.cursor_col, 0);
}

#[test]
fn description_textarea_test_move_word_right() {
    let mut ta = DescriptionTextArea::with_text("Hello world test");
    ta.cursor_col = 0;

    let key = KeyEvent::new(KeyCode::Right, KeyModifiers::alt());
    ta.handle_key(key);
    assert_eq!(ta.cursor_col, 6);

    ta.handle_key(key);
    assert_eq!(ta.cursor_col, 12);

    ta.handle_key(key);
    assert_eq!(ta.cursor_col, 16);
}

#[test]
fn description_textarea_test_delete_word_backward() {
    let mut ta = DescriptionTextArea::with_text("Hello world test");
    ta.cursor_col = 16;

    let key = KeyEvent::new(KeyCode::Backspace, KeyModifiers::alt());
    ta.handle_key(key);
    assert_eq!(ta.text(), "Hello world ");
    assert_eq!(ta.cursor_col, 12);

    ta.handle_key(key);
    assert_eq!(ta.text(), "Hello ");
    assert_eq!(ta.cursor_col, 6);

    ta.handle_key(key);
    assert_eq!(ta.text(), "");
    assert_eq!(ta.cursor_col, 0);
}

#[test]
fn textarea_ctrl_o_on_link_opens_it() {
    let mut ta = DescriptionTextArea::with_text("see https://a.io now");
    ta.cursor_col = 6;
    let key = KeyEvent::new(KeyCode::Char('o'), KeyModifiers::control());
    assert_eq!(ta.handle_key(key), TextAreaAction::OpenLink("https://a.io".to_string()));
    assert_eq!(ta.text(), "see https://a.io now");
}

#[test]
fn textarea_crlf_text_round_trip() {
    let ta = DescriptionTextArea::with_text("a\r\nb");
    assert_eq!(ta.text(), "a\nb");
    assert_eq!(ta.lines.len(), 2);
}

#[test]
fn textarea_newline_then_backspace_joins_lines() {
    let mut ta = DescriptionTextArea::with_text("abcd");
    ta.cursor_col = 2;
    ta.handle_key(KeyEvent::new(KeyCode::Enter, KeyModifiers::none()));
    assert_eq!(ta.text(), "ab\ncd");
    ta.handle_key(KeyEvent::new(KeyCode::Backspace, KeyModifiers::none()));
    assert_eq!(ta.text(), "abcd");
    assert_eq!(ta.cursor_col, 2);
}

#[test]
fn textarea_view_scroll_follows_cursor() {
    let mut ta = DescriptionTextArea::with_text("a\nb\nc\nd\ne");
    assert_eq!(ta.view_scroll(3), 0);
    ta.cursor_row = 4;
    assert_eq!(ta.view_scroll(3), 2);
    ta.scroll_offset = 3;
    ta.cursor_row = 1;
    assert_eq!(ta.view_scroll(3), 1);
}

#[test]
fn textarea_cell_kinds() {

    let ta = DescriptionTextArea::with_text("see https://x.io now");
    assert_eq!(ta.cell_kind(0, 0, true), CellKind::Cursor);
    assert_eq!(ta.cell_kind(0, 0, false), CellKind::Text);
    assert_eq!(ta.cell_kind(0, 4, true), CellKind::Link);
    assert_eq!(ta.cell_kind(0, 15, true), CellKind::Link);
    assert_eq!(ta.cell_kind(0, 16, true), CellKind::Text);
}

#[test]
fn empty_exactly_when_text_is_empty() {
    let mut ta = DescriptionTextArea::new();
    assert_eq!(ta.text(), "");
    assert!(ta.is_empty());
    // A line break alone is text: two empty lines are not empty.
    ta.handle_key(KeyEvent::new(KeyCode::Enter, KeyModifiers::none()));
    assert_eq!(ta.text(), "\n");
    assert!(!ta.is_empty());
    ta.handle_key(KeyEvent::new(KeyCode::Backspace, KeyModifiers::none()));
    assert_eq!(ta.text(), "");
    assert!(ta.is_empty());
}
