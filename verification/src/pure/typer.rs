//! From text to key presses on a US keyboard.

use vstd::prelude::*;

verus! {

/// A key of the keyboard.
#[derive(Debug, Clone, Copy, PartialEq, Eq, Structural)]
pub enum Key {
    KeyA,
    KeyB,
    KeyC,
    KeyD,
    KeyE,
    KeyF,
    KeyG,
    KeyH,
    KeyI,
    KeyJ,
    KeyK,
    KeyL,
    KeyM,
    KeyN,
    KeyO,
    KeyP,
    KeyQ,
    KeyR,
    KeyS,
    KeyT,
    KeyU,
    KeyV,
    KeyW,
    KeyX,
    KeyY,
    KeyZ,
    Num0,
    Num1,
    Num2,
    Num3,
    Num4,
    Num5,
    Num6,
    Num7,
    Num8,
    Num9,
    Space,
    Dot,
    Comma,
    Slash,
    Quote,
    Minus,
    SemiColon,
    Equal,
    LeftBracket,
    RightBracket,
    BackSlash,
    BackQuote,
    Return,
    Tab,
    ShiftLeft,
    F1,
    F2,
    F3,
    F4,
    F5,
    F6,
    F7,
    F8,
    F9,
    F10,
    F11,
    F12,
    /// A key that has no name here, by its code.
    Unknown(u32),
}

/// One key press: the key, and whether shift is held with it.
#[derive(Debug, Clone, Copy, PartialEq, Eq, Structural)]
pub struct KeyEvent {
    pub key: Key,
    pub shift: bool,
}

/// The key that bears the lower-case letter `c`; `Unknown(0)` for any other
/// character.
pub open spec fn letter_key(c: char) -> Key {
    match c {
        'a' => Key::KeyA,
        'b' => Key::KeyB,
        'c' => Key::KeyC,
        'd' => Key::KeyD,
        'e' => Key::KeyE,
        'f' => Key::KeyF,
        'g' => Key::KeyG,
        'h' => Key::KeyH,
        'i' => Key::KeyI,
        'j' => Key::KeyJ,
        'k' => Key::KeyK,
        'l' => Key::KeyL,
        'm' => Key::KeyM,
        'n' => Key::KeyN,
        'o' => Key::KeyO,
        'p' => Key::KeyP,
        'q' => Key::KeyQ,
        'r' => Key::KeyR,
        's' => Key::KeyS,
        't' => Key::KeyT,
        'u' => Key::KeyU,
        'v' => Key::KeyV,
        'w' => Key::KeyW,
        'x' => Key::KeyX,
        'y' => Key::KeyY,
        'z' => Key::KeyZ,
        _ => Key::Unknown(0),
    }
}

/// The lower-case letter for an upper-case ASCII letter.
pub open spec fn lower_of(c: char) -> char {
    ((c as u8) + 32) as char
}

/// The key press that types a character which is neither a letter nor
/// unknown to the keyboard.
pub open spec fn symbol_key(c: char) -> Option<KeyEvent> {
    match c {
        '0' => Some(KeyEvent { key: Key::Num0, shift: false }),
        '1' => Some(KeyEvent { key: Key::Num1, shift: false }),
        '2' => Some(KeyEvent { key: Key::Num2, shift: false }),
        '3' => Some(KeyEvent { key: Key::Num3, shift: false }),
        '4' => Some(KeyEvent { key: Key::Num4, shift: false }),
        '5' => Some(KeyEvent { key: Key::Num5, shift: false }),
        '6' => Some(KeyEvent { key: Key::Num6, shift: false }),
        '7' => Some(KeyEvent { key: Key::Num7, shift: false }),
        '8' => Some(KeyEvent { key: Key::Num8, shift: false }),
        '9' => Some(KeyEvent { key: Key::Num9, shift: false }),
        ' ' => Some(KeyEvent { key: Key::Space, shift: false }),
        '.' => Some(KeyEvent { key: Key::Dot, shift: false }),
        ',' => Some(KeyEvent { key: Key::Comma, shift: false }),
        '!' => Some(KeyEvent { key: Key::Num1, shift: true }),
        '?' => Some(KeyEvent { key: Key::Slash, shift: true }),
        '\'' => Some(KeyEvent { key: Key::Quote, shift: false }),
        '"' => Some(KeyEvent { key: Key::Quote, shift: true }),
        '-' => Some(KeyEvent { key: Key::Minus, shift: false }),
        '_' => Some(KeyEvent { key: Key::Minus, shift: true }),
        ':' => Some(KeyEvent { key: Key::SemiColon, shift: true }),
        ';' => Some(KeyEvent { key: Key::SemiColon, shift: false }),
        '(' => Some(KeyEvent { key: Key::Num9, shift: true }),
        ')' => Some(KeyEvent { key: Key::Num0, shift: true }),
        '/' => Some(KeyEvent { key: Key::Slash, shift: false }),
        '@' => Some(KeyEvent { key: Key::Num2, shift: true }),
        '#' => Some(KeyEvent { key: Key::Num3, shift: true }),
        '$' => Some(KeyEvent { key: Key::Num4, shift: true }),
        '%' => Some(KeyEvent { key: Key::Num5, shift: true }),
        '^' => Some(KeyEvent { key: Key::Num6, shift: true }),
        '&' => Some(KeyEvent { key: Key::Num7, shift: true }),
        '*' => Some(KeyEvent { key: Key::Num8, shift: true }),
        '+' => Some(KeyEvent { key: Key::Equal, shift: true }),
        '=' => Some(KeyEvent { key: Key::Equal, shift: false }),
        '[' => Some(KeyEvent { key: Key::LeftBracket, shift: false }),
        ']' => Some(KeyEvent { key: Key::RightBracket, shift: false }),
        '{' => Some(KeyEvent { key: Key::LeftBracket, shift: true }),
        '}' => Some(KeyEvent { key: Key::RightBracket, shift: true }),
        '\\' => Some(KeyEvent { key: Key::BackSlash, shift: false }),
        '|' => Some(KeyEvent { key: Key::BackSlash, shift: true }),
        '`' => Some(KeyEvent { key: Key::BackQuote, shift: false }),
        '~' => Some(KeyEvent { key: Key::BackQuote, shift: true }),
        '<' => Some(KeyEvent { key: Key::Comma, shift: true }),
        '>' => Some(KeyEvent { key: Key::Dot, shift: true }),
        '\n' => Some(KeyEvent { key: Key::Return, shift: false }),
        '\t' => Some(KeyEvent { key: Key::Tab, shift: false }),
        _ => None,
    }
}

/// The key press that types `c`, if the keyboard has one: a letter key,
/// with shift for an upper-case letter, or the key of a digit, a
/// punctuation mark, a space, a line break or a tab.
pub open spec fn spec_char_to_key(c: char) -> Option<KeyEvent> {
    if 'a' <= c <= 'z' {
        Some(KeyEvent { key: letter_key(c), shift: false })
    } else if 'A' <= c <= 'Z' {
        Some(KeyEvent { key: letter_key(lower_of(c)), shift: true })
    } else {
        symbol_key(c)
    }
}

/// The key presses that type `text`: one for each character that the
/// keyboard can type, in order. The other characters are left out.
pub open spec fn spec_key_events(text: Seq<char>) -> Seq<KeyEvent>
    decreases text.len(),
{
    if text.len() == 0 {
        Seq::empty()
    } else {
        let before = spec_key_events(text.drop_last());
        match spec_char_to_key(text.last()) {
            Some(event) => before.push(event),
            None => before,
        }
    }
}

/// No text needs more key presses than it has characters.
pub proof fn lemma_key_events_len(text: Seq<char>)
    ensures
        spec_key_events(text).len() <= text.len(),
    decreases text.len(),
{
    if text.len() > 0 {
        lemma_key_events_len(text.drop_last());
    }
}

/// The key presses that type `text`, character by character. A character
/// that the keyboard cannot type is left out.
pub fn text_to_key_events(text: &str) -> (events: Vec<KeyEvent>)
    ensures
        events@ == spec_key_events(text@),
{
    let mut events: Vec<KeyEvent> = Vec::new();
    for c in it: text.chars()
        invariant
            it.seq() == text@,
            events@ == spec_key_events(it.seq().take(it.index() as int)),
    {
        proof {
            let done = it.seq().take(it.index() as int);
            let more = it.seq().take(it.index() as int + 1);
            assert(more.drop_last() =~= done);
            assert(more.last() == c);
        }
        match char_to_key(c) {
            Some(event) => {
                events.push(event);
            },
            None => {},
        }
    }
    assert(text@.take(text@.len() as int) =~= text@);
    events
}

/// The key press that types `c`, if the keyboard has one.
fn char_to_key(c: char) -> (event: Option<KeyEvent>)
    ensures
        event == spec_char_to_key(c),
{
    if 'a' <= c && c <= 'z' {
        return Some(KeyEvent { key: char_to_key_letter(c), shift: false });
    }
    if 'A' <= c && c <= 'Z' {
        let lower = ((c as u8) + 32) as char;
        return Some(KeyEvent { key: char_to_key_letter(lower), shift: true });
    }
    let (key, shift) = match c {
        '0' => (Key::Num0, false),
        '1' => (Key::Num1, false),
        '2' => (Key::Num2, false),
        '3' => (Key::Num3, false),
        '4' => (Key::Num4, false),
        '5' => (Key::Num5, false),
        '6' => (Key::Num6, false),
        '7' => (Key::Num7, false),
        '8' => (Key::Num8, false),
        '9' => (Key::Num9, false),
        ' ' => (Key::Space, false),
        '.' => (Key::Dot, false),
        ',' => (Key::Comma, false),
        '!' => (Key::Num1, true),
        '?' => (Key::Slash, true),
        '\'' => (Key::Quote, false),
        '"' => (Key::Quote, true),
        '-' => (Key::Minus, false),
        '_' => (Key::Minus, true),
        ':' => (Key::SemiColon, true),
        ';' => (Key::SemiColon, false),
        '(' => (Key::Num9, true),
        ')' => (Key::Num0, true),
        '/' => (Key::Slash, false),
        '@' => (Key::Num2, true),
        '#' => (Key::Num3, true),
        '$' => (Key::Num4, true),
        '%' => (Key::Num5, true),
        '^' => (Key::Num6, true),
        '&' => (Key::Num7, true),
        '*' => (Key::Num8, true),
        '+' => (Key::Equal, true),
        '=' => (Key::Equal, false),
        '[' => (Key::LeftBracket, false),
        ']' => (Key::RightBracket, false),
        '{' => (Key::LeftBracket, true),
        '}' => (Key::RightBracket, true),
        '\\' => (Key::BackSlash, false),
        '|' => (Key::BackSlash, true),
        '`' => (Key::BackQuote, false),
        '~' => (Key::BackQuote, true),
        '<' => (Key::Comma, true),
        '>' => (Key::Dot, true),
        '\n' => (Key::Return, false),
        '\t' => (Key::Tab, false),
        _ => {
            return None;
        },
    };
    Some(KeyEvent { key, shift })
}

/// The key that bears the lower-case letter `c`.
fn char_to_key_letter(c: char) -> (key: Key)
    ensures
        key == letter_key(c),
{
    match c {
        'a' => Key::KeyA,
        'b' => Key::KeyB,
        'c' => Key::KeyC,
        'd' => Key::KeyD,
        'e' => Key::KeyE,
        'f' => Key::KeyF,
        'g' => Key::KeyG,
        'h' => Key::KeyH,
        'i' => Key::KeyI,
        'j' => Key::KeyJ,
        'k' => Key::KeyK,
        'l' => Key::KeyL,
        'm' => Key::KeyM,
        'n' => Key::KeyN,
        'o' => Key::KeyO,
        'p' => Key::KeyP,
        'q' => Key::KeyQ,
        'r' => Key::KeyR,
        's' => Key::KeyS,
        't' => Key::KeyT,
        'u' => Key::KeyU,
        'v' => Key::KeyV,
        'w' => Key::KeyW,
        'x' => Key::KeyX,
        'y' => Key::KeyY,
        'z' => Key::KeyZ,
        _ => Key::Unknown(0),
    }
}

} // verus!
