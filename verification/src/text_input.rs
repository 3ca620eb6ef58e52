use vstd::prelude::*;

use crate::text::chars_of;

verus! {

/// What a text input edits, as far as the characters it takes are concerned: a number
/// (digits, a point, a percent sign), a hex colour, free text, or a control that takes no
/// typed input.
#[derive(Debug, Clone, Copy, PartialEq, Eq, Structural)]
pub enum InputKind {
    Number,
    HexColor,
    Text,
    NoTyping,
}

/// A control character: Unicode's general category Cc.
pub open spec fn is_control_char(c: char) -> bool {
    (c as u32) <= 0x1f || (0x7f <= (c as u32) && (c as u32) <= 0x9f)
}

/// An ASCII hex digit.
pub open spec fn is_hex_digit(c: char) -> bool {
    ('0' <= c && c <= '9') || ('a' <= c && c <= 'f') || ('A' <= c && c <= 'F')
}

/// The number of `#` that `s` starts with, counted from `from`.
pub open spec fn hash_prefix_end(s: Seq<char>, from: int) -> int
    decreases s.len() - from,
{
    if 0 <= from < s.len() && s[from] == '#' {
        hash_prefix_end(s, from + 1)
    } else {
        from
    }
}

/// Whether an input of kind `kind` that holds `existing` takes `c`: a number takes digits,
/// `.` and `%`; a hex colour takes hex digits while it holds fewer than eight after its
/// leading `#`s, and a `#` only as its first character; free text takes anything but a
/// control character.
pub open spec fn accepts(kind: InputKind, c: char, existing: Seq<char>) -> bool {
    match kind {
        InputKind::Number => ('0' <= c && c <= '9') || c == '.' || c == '%',
        InputKind::HexColor => (is_hex_digit(c) && existing.len() - hash_prefix_end(existing, 0) < 8)
            || (c == '#' && existing.len() == 0),
        InputKind::Text => !is_control_char(c),
        InputKind::NoTyping => false,
    }
}

/// Whether the input takes `c` (see [`accepts`]).
pub fn accepts_input_char(kind: InputKind, c: char, existing: &str) -> (r: bool)
    ensures
        r == accepts(kind, c, existing@),
{
    match kind {
        InputKind::Number => ('0' <= c && c <= '9') || c == '.' || c == '%',
        InputKind::HexColor => {
            let chars = chars_of(existing);
            let mut i: usize = 0;
            while i < chars.len() && chars[i] == '#'
                invariant
                    i <= chars.len(),
                    chars@ == existing@,
                    hash_prefix_end(chars@, 0) == hash_prefix_end(chars@, i as int),
                decreases chars.len() - i,
            {
                i = i + 1;
            }
            let hex = ('0' <= c && c <= '9') || ('a' <= c && c <= 'f') || ('A' <= c && c <= 'F');
            (hex && chars.len() - i < 8) || (c == '#' && chars.len() == 0)
        },
        InputKind::Text => {
            let code = c as u32;
            !(code <= 0x1f || (0x7f <= code && code <= 0x9f))
        },
        InputKind::NoTyping => false,
    }
}

/// The character that typing `c` adds: a hex colour keeps its digits in upper case.
pub open spec fn typed_char_spec(kind: InputKind, c: char) -> char {
    if kind == InputKind::HexColor && 'a' <= c && c <= 'z' {
        ((c as u32) - 32) as char
    } else {
        c
    }
}

/// The character that typing `c` adds (see [`typed_char_spec`]).
pub fn typed_char(kind: InputKind, c: char) -> (r: char)
    ensures
        r == typed_char_spec(kind, c),
{
    if kind == InputKind::HexColor && 'a' <= c && c <= 'z' {
        let code: u8 = c as u8;
        (code - 32) as char
    } else {
        c
    }
}

/// A number input takes every ASCII digit, the point and the percent sign, whatever it
/// already holds, and nothing else.
pub proof fn law_number_inputs_take_digits(c: char, existing: Seq<char>)
    ensures
        (48 <= (c as u32) && (c as u32) <= 57) ==> accepts(InputKind::Number, c, existing),
        (c == '.' || c == '%') ==> accepts(InputKind::Number, c, existing),
        accepts(InputKind::Number, c, existing) ==> (48 <= (c as u32) && (c as u32) <= 57) || c == '.'
            || c == '%',
{
}

/// A free-text input refuses exactly the control characters (U+0000 to U+001F and U+007F
/// to U+009F); an input without typing refuses everything.
pub proof fn law_text_inputs_refuse_only_control_characters(c: char, existing: Seq<char>)
    ensures
        accepts(InputKind::Text, c, existing) <==> !((c as u32) < 32 || (127 <= (c as u32) && (c as u32) < 160)),
        !accepts(InputKind::NoTyping, c, existing),
{
}

/// A hex colour input takes a `#` only when it is empty, never takes a non-hex letter, and
/// takes a hex digit exactly while it holds fewer than eight characters after its leading
/// `#`s; typed lower-case letters come out in upper case, other characters unchanged.
pub proof fn law_hex_inputs_take_eight_digits(c: char, existing: Seq<char>)
    ensures
        c == '#' ==> (accepts(InputKind::HexColor, c, existing) <==> existing.len() == 0),
        ('g' <= c && c <= 'z') ==> !accepts(InputKind::HexColor, c, existing),
        is_hex_digit(c) ==> (accepts(InputKind::HexColor, c, existing) <==> existing.len()
            - hash_prefix_end(existing, 0) < 8),
        ('a' <= c && c <= 'z') ==> (typed_char_spec(InputKind::HexColor, c) as u32) + 32 == (c as u32),
        !('a' <= c && c <= 'z') ==> typed_char_spec(
            InputKind::HexColor,
            c,
        ) == c,
        typed_char_spec(InputKind::Text, c) == c,
{
}

} // verus!
