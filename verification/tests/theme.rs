use ratado::ui::dialogs::project::{parse_hex_color, parse_hex_color_checked, HexColor};
use ratado::ui::theme::{bar_of, gradient_bar};

#[test]
fn test_gradient_bar() {
    let bar = gradient_bar(21);
    assert_eq!(bar.chars().count(), 21);
}

#[test]
fn theme_gradient_bar_shape() {
    assert_eq!(gradient_bar(7), "░▒▓█▓▒░");
    assert_eq!(gradient_bar(3), "███");
    assert_eq!(gradient_bar(0), "");
}

#[test]
fn theme_progress_bar_halves() {
    assert_eq!(bar_of(5, 10), "█████░░░░░");
    assert_eq!(bar_of(5, 5), "█████");
    assert_eq!(bar_of(0, 5), "░░░░░");
    assert_eq!(bar_of(9, 5), "█████████");
}

#[test]
fn test_parse_hex_color() {
    let color = parse_hex_color("#3498db");
    assert!(matches!(color, HexColor::Rgb(52, 152, 219)));
}

#[test]
fn hex_color_edge_cases() {
    assert_eq!(parse_hex_color("##3498DB"), HexColor::Rgb(52, 152, 219));
    assert_eq!(parse_hex_color("#12345"), HexColor::Gray);
    assert_eq!(parse_hex_color("zz0000"), HexColor::Rgb(128, 0, 0));
    assert_eq!(parse_hex_color("+f0000"), HexColor::Rgb(15, 0, 0));
    assert_eq!(parse_hex_color("é1234"), HexColor::Rgb(128, 18, 52));
}

#[test]
fn parse_hex_color_checked_refuses_a_split_character() {
    assert_eq!(parse_hex_color_checked("#3498db"), Some(HexColor::Rgb(52, 152, 219)));
    assert_eq!(parse_hex_color_checked("aé€b"), Some(HexColor::Gray));
    assert_eq!(parse_hex_color_checked("aé€"), None);
}
