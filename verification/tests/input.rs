use ratado::ui::input::{TextInput, TextInputWidget};

#[test]
fn input_test_new_input() {
    let input = TextInput::new();
    assert_eq!(input.value(), "");
    assert_eq!(input.cursor(), 0);
}

#[test]
fn test_with_value() {
    let input = TextInput::with_value("Hello");
    assert_eq!(input.value(), "Hello");
    assert_eq!(input.cursor(), 5);
}

#[test]
fn test_insert() {
    let mut input = TextInput::new();
    input.insert('H');
    input.insert('i');
    assert_eq!(input.value(), "Hi");
    assert_eq!(input.cursor(), 2);
}

#[test]
fn test_delete_backward() {
    let mut input = TextInput::with_value("Hello");
    input.delete_backward();
    assert_eq!(input.value(), "Hell");
    assert_eq!(input.cursor(), 4);
}

#[test]
fn test_delete_backward_at_start() {
    let mut input = TextInput::with_value("Hello");
    input.move_home();
    input.delete_backward();
    assert_eq!(input.value(), "Hello");
    assert_eq!(input.cursor(), 0);
}

#[test]
fn test_delete_forward() {
    let mut input = TextInput::with_value("Hello");
    input.move_home();
    input.delete_forward();
    assert_eq!(input.value(), "ello");
    assert_eq!(input.cursor(), 0);
}

#[test]
fn test_cursor_movement() {
    let mut input = TextInput::with_value("Hello");
    assert_eq!(input.cursor(), 5);

    input.move_left();
    assert_eq!(input.cursor(), 4);

    input.move_home();
    assert_eq!(input.cursor(), 0);

    input.move_right();
    assert_eq!(input.cursor(), 1);

    input.move_end();
    assert_eq!(input.cursor(), 5);
}

#[test]
fn test_insert_at_cursor() {
    let mut input = TextInput::with_value("Hllo");
    input.cursor = 1;
    input.insert('e');
    assert_eq!(input.value(), "Hello");
}

#[test]
fn test_clear() {
    let mut input = TextInput::with_value("Hello");
    input.clear();
    assert_eq!(input.value(), "");
    assert_eq!(input.cursor(), 0);
}

#[test]
fn input_test_move_word_left() {
    let mut input = TextInput::with_value("Hello world test");
    assert_eq!(input.cursor(), 16);

    input.move_word_left();
    assert_eq!(input.cursor(), 12);

    input.move_word_left();
    assert_eq!(input.cursor(), 6);

    input.move_word_left();
    assert_eq!(input.cursor(), 0);

    input.move_word_left();
    assert_eq!(input.cursor(), 0);
}

#[test]
fn input_test_move_word_right() {
    let mut input = TextInput::with_value("Hello world test");
    input.move_home();
    assert_eq!(input.cursor(), 0);

    input.move_word_right();
    assert_eq!(input.cursor(), 6);

    input.move_word_right();
    assert_eq!(input.cursor(), 12);

    input.move_word_right();
    assert_eq!(input.cursor(), 16);

    input.move_word_right();
    assert_eq!(input.cursor(), 16);
}

#[test]
fn input_test_delete_word_backward() {
    let mut input = TextInput::with_value("Hello world test");
    assert_eq!(input.cursor(), 16);

    input.delete_word_backward();
    assert_eq!(input.value(), "Hello world ");
    assert_eq!(input.cursor(), 12);

    input.delete_word_backward();
    assert_eq!(input.value(), "Hello ");
    assert_eq!(input.cursor(), 6);

    input.delete_word_backward();
    assert_eq!(input.value(), "");
    assert_eq!(input.cursor(), 0);
}

#[test]
fn input_insert_then_delete_backward_restores() {
    let mut input = TextInput::with_value("abc");
    input.cursor = 1;
    input.insert('x');
    assert_eq!(input.value(), "axbc");
    input.delete_backward();
    assert_eq!(input.value(), "abc");
    assert_eq!(input.cursor(), 1);
}

#[test]
fn input_unicode_positions_are_characters() {
    let mut input = TextInput::with_value("héllo");
    assert_eq!(input.cursor(), 5);
    input.move_left();
    input.delete_backward();
    assert_eq!(input.value(), "hélo");
}

#[test]
fn input_placeholder_and_set_value() {
    let mut input = TextInput::new().with_placeholder("Type here");
    assert_eq!(input.placeholder.as_deref(), Some("Type here"));
    input.set_value("abc");
    assert_eq!(input.value(), "abc");
    assert_eq!(input.cursor(), 3);
    assert_eq!(input.placeholder.as_deref(), Some("Type here"));
}

#[test]
fn input_widget_builders() {
    let input = TextInput::with_value("x");
    let w = TextInputWidget::new(&input).focused(true).label("Title");
    assert!(w.focused);
    assert_eq!(w.label, Some("Title"));
}
