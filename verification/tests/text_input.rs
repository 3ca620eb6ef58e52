use themeprism::text_input::{accepts_input_char, typed_char, InputKind};

#[test]
fn number_inputs_take_digits_point_and_percent() {
    assert!(accepts_input_char(InputKind::Number, '5', "12"));
    assert!(accepts_input_char(InputKind::Number, '.', "12"));
    assert!(accepts_input_char(InputKind::Number, '%', "12"));
    assert!(!accepts_input_char(InputKind::Number, 'a', "12"));
    assert!(!accepts_input_char(InputKind::Number, '-', ""));
}

#[test]
fn hex_colour_inputs_take_a_leading_hash_and_up_to_eight_digits() {
    assert!(accepts_input_char(InputKind::HexColor, '#', ""));
    assert!(!accepts_input_char(InputKind::HexColor, '#', "#"));
    assert!(!accepts_input_char(InputKind::HexColor, '#', "12"));
    assert!(accepts_input_char(InputKind::HexColor, 'a', "#1234567"));
    assert!(!accepts_input_char(InputKind::HexColor, 'a', "#12345678"));
    assert!(accepts_input_char(InputKind::HexColor, 'F', "##1234567"));
    assert!(!accepts_input_char(InputKind::HexColor, 'g', "#12"));
}

#[test]
fn text_inputs_refuse_control_characters_only() {
    assert!(accepts_input_char(InputKind::Text, 'a', ""));
    assert!(accepts_input_char(InputKind::Text, ' ', "x"));
    assert!(accepts_input_char(InputKind::Text, '\u{a0}', "x"));
    assert!(!accepts_input_char(InputKind::Text, '\n', "x"));
    assert!(!accepts_input_char(InputKind::Text, '\u{7f}', "x"));
    assert!(!accepts_input_char(InputKind::Text, '\u{85}', "x"));
    for c in ['a', '\u{1f}', '\u{9f}', 'é'] {
        assert_eq!(accepts_input_char(InputKind::Text, c, ""), !c.is_control());
    }
}

#[test]
fn controls_without_text_input_take_nothing() {
    assert!(!accepts_input_char(InputKind::NoTyping, '1', ""));
}

#[test]
fn hex_colours_are_typed_in_upper_case() {
    assert_eq!(typed_char(InputKind::HexColor, 'b'), 'B');
    assert_eq!(typed_char(InputKind::HexColor, '7'), '7');
    assert_eq!(typed_char(InputKind::Text, 'b'), 'b');
}
