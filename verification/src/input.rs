//! Keyboard and pointer input: the mapping of keys to browser key event
//! fields, mouse button bookkeeping, touch phases and pointer-lock requests.

use vstd::prelude::*;
use crate::text::owned;

verus! {

broadcast use vstd::string::group_string_axioms;

/// Physical keys the host reports; `Other` stands for every key it has no
/// browser code for.
#[derive(Clone, Copy, Debug, PartialEq, Eq, Structural)]
pub enum KeyCode {
    KeyA,
    KeyB,
    KeyC,
    KeyD,
    KeyE,
    KeyF,
    KeyG,
    KeyH,
    KeyI,
    KeyJ,
    KeyK,
    KeyL,
    KeyM,
    KeyN,
    KeyO,
    KeyP,
    KeyQ,
    KeyR,
    KeyS,
    KeyT,
    KeyU,
    KeyV,
    KeyW,
    KeyX,
    KeyY,
    KeyZ,
    Digit0,
    Digit1,
    Digit2,
    Digit3,
    Digit4,
    Digit5,
    Digit6,
    Digit7,
    Digit8,
    Digit9,
    F1,
    F2,
    F3,
    F4,
    F5,
    F6,
    F7,
    F8,
    F9,
    F10,
    F11,
    F12,
    ArrowUp,
    ArrowDown,
    ArrowLeft,
    ArrowRight,
    ShiftLeft,
    ShiftRight,
    ControlLeft,
    ControlRight,
    AltLeft,
    AltRight,
    SuperLeft,
    SuperRight,
    Escape,
    Enter,
    Tab,
    Space,
    Backspace,
    Delete,
    Insert,
    Home,
    End,
    PageUp,
    PageDown,
    CapsLock,
    Minus,
    Equal,
    BracketLeft,
    BracketRight,
    Backslash,
    Semicolon,
    Quote,
    Backquote,
    Comma,
    Period,
    Slash,
    Numpad0,
    Numpad1,
    Numpad2,
    Numpad3,
    Numpad4,
    Numpad5,
    Numpad6,
    Numpad7,
    Numpad8,
    Numpad9,
    NumpadAdd,
    NumpadSubtract,
    NumpadMultiply,
    NumpadDivide,
    NumpadDecimal,
    NumpadEnter,
    Other,
}

/// Named logical keys the host reports; `Other` stands for the rest.
#[derive(Clone, Copy, Debug, PartialEq, Eq, Structural)]
pub enum NamedKey {
    Shift,
    Control,
    Alt,
    Super,
    Enter,
    Tab,
    Space,
    Backspace,
    Escape,
    Delete,
    Insert,
    Home,
    End,
    PageUp,
    PageDown,
    CapsLock,
    ArrowUp,
    ArrowDown,
    ArrowLeft,
    ArrowRight,
    F1,
    F2,
    F3,
    F4,
    F5,
    F6,
    F7,
    F8,
    F9,
    F10,
    F11,
    F12,
    NumLock,
    ScrollLock,
    PrintScreen,
    Pause,
    ContextMenu,
    Other,
}

/// A logical key: the character it produces, a named key, a dead key or an unidentified key.
#[derive(Clone, Debug)]
pub enum Key {
    Character(String),
    Named(NamedKey),
    Dead,
    Unidentified,
}

/// The physical key a browser reports by its legacy `keyCode` and its
/// `location` (0 standard, 1 left, 2 right, 3 numpad), as the DOM assigns them.
pub open spec fn key_from_js(key_code: u32, location: u32) -> KeyCode {
    if location == 0u32 {
        if key_code == 8u32 { KeyCode::Backspace }
        else if key_code == 9u32 { KeyCode::Tab }
        else if key_code == 13u32 { KeyCode::Enter }
        else if key_code == 20u32 { KeyCode::CapsLock }
        else if key_code == 27u32 { KeyCode::Escape }
        else if key_code == 32u32 { KeyCode::Space }
        else if key_code == 33u32 { KeyCode::PageUp }
        else if key_code == 34u32 { KeyCode::PageDown }
        else if key_code == 35u32 { KeyCode::End }
        else if key_code == 36u32 { KeyCode::Home }
        else if key_code == 37u32 { KeyCode::ArrowLeft }
        else if key_code == 38u32 { KeyCode::ArrowUp }
        else if key_code == 39u32 { KeyCode::ArrowRight }
        else if key_code == 40u32 { KeyCode::ArrowDown }
        else if key_code == 45u32 { KeyCode::Insert }
        else if key_code == 46u32 { KeyCode::Delete }
        else if key_code == 48u32 { KeyCode::Digit0 }
        else if key_code == 49u32 { KeyCode::Digit1 }
        else if key_code == 50u32 { KeyCode::Digit2 }
        else if key_code == 51u32 { KeyCode::Digit3 }
        else if key_code == 52u32 { KeyCode::Digit4 }
        else if key_code == 53u32 { KeyCode::Digit5 }
        else if key_code == 54u32 { KeyCode::Digit6 }
        else if key_code == 55u32 { KeyCode::Digit7 }
        else if key_code == 56u32 { KeyCode::Digit8 }
        else if key_code == 57u32 { KeyCode::Digit9 }
        else if key_code == 65u32 { KeyCode::KeyA }
        else if key_code == 66u32 { KeyCode::KeyB }
        else if key_code == 67u32 { KeyCode::KeyC }
        else if key_code == 68u32 { KeyCode::KeyD }
        else if key_code == 69u32 { KeyCode::KeyE }
        else if key_code == 70u32 { KeyCode::KeyF }
        else if key_code == 71u32 { KeyCode::KeyG }
        else if key_code == 72u32 { KeyCode::KeyH }
        else if key_code == 73u32 { KeyCode::KeyI }
        else if key_code == 74u32 { KeyCode::KeyJ }
        else if key_code == 75u32 { KeyCode::KeyK }
        else if key_code == 76u32 { KeyCode::KeyL }
        else if key_code == 77u32 { KeyCode::KeyM }
        else if key_code == 78u32 { KeyCode::KeyN }
        else if key_code == 79u32 { KeyCode::KeyO }
        else if key_code == 80u32 { KeyCode::KeyP }
        else if key_code == 81u32 { KeyCode::KeyQ }
        else if key_code == 82u32 { KeyCode::KeyR }
        else if key_code == 83u32 { KeyCode::KeyS }
        else if key_code == 84u32 { KeyCode::KeyT }
        else if key_code == 85u32 { KeyCode::KeyU }
        else if key_code == 86u32 { KeyCode::KeyV }
        else if key_code == 87u32 { KeyCode::KeyW }
        else if key_code == 88u32 { KeyCode::KeyX }
        else if key_code == 89u32 { KeyCode::KeyY }
        else if key_code == 90u32 { KeyCode::KeyZ }
        else if key_code == 112u32 { KeyCode::F1 }
        else if key_code == 113u32 { KeyCode::F2 }
        else if key_code == 114u32 { KeyCode::F3 }
        else if key_code == 115u32 { KeyCode::F4 }
        else if key_code == 116u32 { KeyCode::F5 }
        else if key_code == 117u32 { KeyCode::F6 }
        else if key_code == 118u32 { KeyCode::F7 }
        else if key_code == 119u32 { KeyCode::F8 }
        else if key_code == 120u32 { KeyCode::F9 }
        else if key_code == 121u32 { KeyCode::F10 }
        else if key_code == 122u32 { KeyCode::F11 }
        else if key_code == 123u32 { KeyCode::F12 }
        else if key_code == 186u32 { KeyCode::Semicolon }
        else if key_code == 187u32 { KeyCode::Equal }
        else if key_code == 188u32 { KeyCode::Comma }
        else if key_code == 189u32 { KeyCode::Minus }
        else if key_code == 190u32 { KeyCode::Period }
        else if key_code == 191u32 { KeyCode::Slash }
        else if key_code == 192u32 { KeyCode::Backquote }
        else if key_code == 219u32 { KeyCode::BracketLeft }
        else if key_code == 220u32 { KeyCode::Backslash }
        else if key_code == 221u32 { KeyCode::BracketRight }
        else if key_code == 222u32 { KeyCode::Quote }
        else { KeyCode::Other }
    } else if location == 1u32 {
        if key_code == 16u32 { KeyCode::ShiftLeft }
        else if key_code == 17u32 { KeyCode::ControlLeft }
        else if key_code == 18u32 { KeyCode::AltLeft }
        else if key_code == 91u32 { KeyCode::SuperLeft }
        else { KeyCode::Other }
    } else if location == 2u32 {
        if key_code == 16u32 { KeyCode::ShiftRight }
        else if key_code == 17u32 { KeyCode::ControlRight }
        else if key_code == 18u32 { KeyCode::AltRight }
        else if key_code == 92u32 { KeyCode::SuperRight }
        else { KeyCode::Other }
    } else if location == 3u32 {
        if key_code == 13u32 { KeyCode::NumpadEnter }
        else if key_code == 96u32 { KeyCode::Numpad0 }
        else if key_code == 97u32 { KeyCode::Numpad1 }
        else if key_code == 98u32 { KeyCode::Numpad2 }
        else if key_code == 99u32 { KeyCode::Numpad3 }
        else if key_code == 100u32 { KeyCode::Numpad4 }
        else if key_code == 101u32 { KeyCode::Numpad5 }
        else if key_code == 102u32 { KeyCode::Numpad6 }
        else if key_code == 103u32 { KeyCode::Numpad7 }
        else if key_code == 104u32 { KeyCode::Numpad8 }
        else if key_code == 105u32 { KeyCode::Numpad9 }
        else if key_code == 106u32 { KeyCode::NumpadMultiply }
        else if key_code == 107u32 { KeyCode::NumpadAdd }
        else if key_code == 109u32 { KeyCode::NumpadSubtract }
        else if key_code == 110u32 { KeyCode::NumpadDecimal }
        else if key_code == 111u32 { KeyCode::NumpadDivide }
        else { KeyCode::Other }
    } else {
        KeyCode::Other
    }
}

/// Each key is reported with the DOM's legacy `keyCode` and `location` for
/// it, and no two keys share both: a script can tell every key apart by them
/// (the left and right modifiers share a `keyCode` and differ in `location`).
pub proof fn lemma_key_codes_identify_keys(k: KeyCode)
    requires
        k != KeyCode::Other,
    ensures
        key_from_js(keycode_spec(k).2, keycode_spec(k).3) == k,
{
}

/// The named key a physical key produces, for the keys that produce one.
pub open spec fn named_key_of(k: KeyCode) -> Option<NamedKey> {
    match k {
        KeyCode::ShiftLeft => Some(NamedKey::Shift),
        KeyCode::ShiftRight => Some(NamedKey::Shift),
        KeyCode::ControlLeft => Some(NamedKey::Control),
        KeyCode::ControlRight => Some(NamedKey::Control),
        KeyCode::AltLeft => Some(NamedKey::Alt),
        KeyCode::AltRight => Some(NamedKey::Alt),
        KeyCode::SuperLeft => Some(NamedKey::Super),
        KeyCode::SuperRight => Some(NamedKey::Super),
        KeyCode::NumpadEnter => Some(NamedKey::Enter),
        KeyCode::Enter => Some(NamedKey::Enter),
        KeyCode::Tab => Some(NamedKey::Tab),
        KeyCode::Space => Some(NamedKey::Space),
        KeyCode::Backspace => Some(NamedKey::Backspace),
        KeyCode::Escape => Some(NamedKey::Escape),
        KeyCode::Delete => Some(NamedKey::Delete),
        KeyCode::Insert => Some(NamedKey::Insert),
        KeyCode::Home => Some(NamedKey::Home),
        KeyCode::End => Some(NamedKey::End),
        KeyCode::PageUp => Some(NamedKey::PageUp),
        KeyCode::PageDown => Some(NamedKey::PageDown),
        KeyCode::CapsLock => Some(NamedKey::CapsLock),
        KeyCode::ArrowUp => Some(NamedKey::ArrowUp),
        KeyCode::ArrowDown => Some(NamedKey::ArrowDown),
        KeyCode::ArrowLeft => Some(NamedKey::ArrowLeft),
        KeyCode::ArrowRight => Some(NamedKey::ArrowRight),
        KeyCode::F1 => Some(NamedKey::F1),
        KeyCode::F2 => Some(NamedKey::F2),
        KeyCode::F3 => Some(NamedKey::F3),
        KeyCode::F4 => Some(NamedKey::F4),
        KeyCode::F5 => Some(NamedKey::F5),
        KeyCode::F6 => Some(NamedKey::F6),
        KeyCode::F7 => Some(NamedKey::F7),
        KeyCode::F8 => Some(NamedKey::F8),
        KeyCode::F9 => Some(NamedKey::F9),
        KeyCode::F10 => Some(NamedKey::F10),
        KeyCode::F11 => Some(NamedKey::F11),
        KeyCode::F12 => Some(NamedKey::F12),
        _ => None,
    }
}

/// A physical key that produces a named key reports that named key's `key`
/// value, so both tables agree (a modifier on either side reports the same
/// `key`, and so do both Enter keys).
pub proof fn lemma_physical_keys_report_named_key(k: KeyCode)
    ensures
        named_key_of(k) is Some ==> keycode_spec(k).0 == named_key_spec(named_key_of(k)->0),
{
}

/// The code of the upper-case form of a character, for ASCII letters; the
/// character's own code otherwise.
pub open spec fn upper_code(c: char) -> int {
    if 'a' <= c && c <= 'z' { (c as int) - 32 } else { c as int }
}

/// A key whose `key` value is one ASCII letter or digit reports the DOM's
/// legacy `keyCode` for it: on the main block the code of the upper-case
/// character, on the numpad 96 plus the digit.
pub proof fn lemma_character_key_codes(k: KeyCode)
    requires
        keycode_spec(k).0.len() == 1,
        ('a' <= keycode_spec(k).0[0] && keycode_spec(k).0[0] <= 'z')
            || ('0' <= keycode_spec(k).0[0] && keycode_spec(k).0[0] <= '9'),
    ensures
        keycode_spec(k).3 == 0u32 ==> keycode_spec(k).2 == upper_code(keycode_spec(k).0[0]),
        keycode_spec(k).3 == 3u32 ==> keycode_spec(k).2 == (keycode_spec(k).0[0] as int) - 48 + 96,
        keycode_spec(k).3 == 0u32 || keycode_spec(k).3 == 3u32,
{
    reveal_strlit("a");
    reveal_strlit("b");
    reveal_strlit("c");
    reveal_strlit("d");
    reveal_strlit("e");
    reveal_strlit("f");
    reveal_strlit("g");
    reveal_strlit("h");
    reveal_strlit("i");
    reveal_strlit("j");
    reveal_strlit("k");
    reveal_strlit("l");
    reveal_strlit("m");
    reveal_strlit("n");
    reveal_strlit("o");
    reveal_strlit("p");
    reveal_strlit("q");
    reveal_strlit("r");
    reveal_strlit("s");
    reveal_strlit("t");
    reveal_strlit("u");
    reveal_strlit("v");
    reveal_strlit("w");
    reveal_strlit("x");
    reveal_strlit("y");
    reveal_strlit("z");
    reveal_strlit("0");
    reveal_strlit("1");
    reveal_strlit("2");
    reveal_strlit("3");
    reveal_strlit("4");
    reveal_strlit("5");
    reveal_strlit("6");
    reveal_strlit("7");
    reveal_strlit("8");
    reveal_strlit("9");
    reveal_strlit("F1");
    reveal_strlit("F2");
    reveal_strlit("F3");
    reveal_strlit("F4");
    reveal_strlit("F5");
    reveal_strlit("F6");
    reveal_strlit("F7");
    reveal_strlit("F8");
    reveal_strlit("F9");
    reveal_strlit("F10");
    reveal_strlit("F11");
    reveal_strlit("F12");
    reveal_strlit("ArrowUp");
    reveal_strlit("ArrowDown");
    reveal_strlit("ArrowLeft");
    reveal_strlit("ArrowRight");
    reveal_strlit("Shift");
    reveal_strlit("Control");
    reveal_strlit("Alt");
    reveal_strlit("Meta");
    reveal_strlit("Escape");
    reveal_strlit("Enter");
    reveal_strlit("Tab");
    reveal_strlit(" ");
    reveal_strlit("Backspace");
    reveal_strlit("Delete");
    reveal_strlit("Insert");
    reveal_strlit("Home");
    reveal_strlit("End");
    reveal_strlit("PageUp");
    reveal_strlit("PageDown");
    reveal_strlit("CapsLock");
    reveal_strlit("-");
    reveal_strlit("=");
    reveal_strlit("[");
    reveal_strlit("]");
    reveal_strlit("\\");
    reveal_strlit(";");
    reveal_strlit("'");
    reveal_strlit("`");
    reveal_strlit(",");
    reveal_strlit(".");
    reveal_strlit("/");
    reveal_strlit("+");
    reveal_strlit("*");
    reveal_strlit("Unidentified");
}

/// Browser fields of a physical key: `key`, `code`, legacy `keyCode` and
/// `location` (0 standard, 1 left, 2 right, 3 numpad).
pub open spec fn keycode_spec(k: KeyCode) -> (Seq<char>, Seq<char>, u32, u32) {
    match k {
        KeyCode::KeyA => ("a"@, "KeyA"@, 65u32, 0u32),
        KeyCode::KeyB => ("b"@, "KeyB"@, 66u32, 0u32),
        KeyCode::KeyC => ("c"@, "KeyC"@, 67u32, 0u32),
        KeyCode::KeyD => ("d"@, "KeyD"@, 68u32, 0u32),
        KeyCode::KeyE => ("e"@, "KeyE"@, 69u32, 0u32),
        KeyCode::KeyF => ("f"@, "KeyF"@, 70u32, 0u32),
        KeyCode::KeyG => ("g"@, "KeyG"@, 71u32, 0u32),
        KeyCode::KeyH => ("h"@, "KeyH"@, 72u32, 0u32),
        KeyCode::KeyI => ("i"@, "KeyI"@, 73u32, 0u32),
        KeyCode::KeyJ => ("j"@, "KeyJ"@, 74u32, 0u32),
        KeyCode::KeyK => ("k"@, "KeyK"@, 75u32, 0u32),
        KeyCode::KeyL => ("l"@, "KeyL"@, 76u32, 0u32),
        KeyCode::KeyM => ("m"@, "KeyM"@, 77u32, 0u32),
        KeyCode::KeyN => ("n"@, "KeyN"@, 78u32, 0u32),
        KeyCode::KeyO => ("o"@, "KeyO"@, 79u32, 0u32),
        KeyCode::KeyP => ("p"@, "KeyP"@, 80u32, 0u32),
        KeyCode::KeyQ => ("q"@, "KeyQ"@, 81u32, 0u32),
        KeyCode::KeyR => ("r"@, "KeyR"@, 82u32, 0u32),
        KeyCode::KeyS => ("s"@, "KeyS"@, 83u32, 0u32),
        KeyCode::KeyT => ("t"@, "KeyT"@, 84u32, 0u32),
        KeyCode::KeyU => ("u"@, "KeyU"@, 85u32, 0u32),
        KeyCode::KeyV => ("v"@, "KeyV"@, 86u32, 0u32),
        KeyCode::KeyW => ("w"@, "KeyW"@, 87u32, 0u32),
        KeyCode::KeyX => ("x"@, "KeyX"@, 88u32, 0u32),
        KeyCode::KeyY => ("y"@, "KeyY"@, 89u32, 0u32),
        KeyCode::KeyZ => ("z"@, "KeyZ"@, 90u32, 0u32),
        KeyCode::Digit0 => ("0"@, "Digit0"@, 48u32, 0u32),
        KeyCode::Digit1 => ("1"@, "Digit1"@, 49u32, 0u32),
        KeyCode::Digit2 => ("2"@, "Digit2"@, 50u32, 0u32),
        KeyCode::Digit3 => ("3"@, "Digit3"@, 51u32, 0u32),
        KeyCode::Digit4 => ("4"@, "Digit4"@, 52u32, 0u32),
        KeyCode::Digit5 => ("5"@, "Digit5"@, 53u32, 0u32),
        KeyCode::Digit6 => ("6"@, "Digit6"@, 54u32, 0u32),
        KeyCode::Digit7 => ("7"@, "Digit7"@, 55u32, 0u32),
        KeyCode::Digit8 => ("8"@, "Digit8"@, 56u32, 0u32),
        KeyCode::Digit9 => ("9"@, "Digit9"@, 57u32, 0u32),
        KeyCode::F1 => ("F1"@, "F1"@, 112u32, 0u32),
        KeyCode::F2 => ("F2"@, "F2"@, 113u32, 0u32),
        KeyCode::F3 => ("F3"@, "F3"@, 114u32, 0u32),
        KeyCode::F4 => ("F4"@, "F4"@, 115u32, 0u32),
        KeyCode::F5 => ("F5"@, "F5"@, 116u32, 0u32),
        KeyCode::F6 => ("F6"@, "F6"@, 117u32, 0u32),
        KeyCode::F7 => ("F7"@, "F7"@, 118u32, 0u32),
        KeyCode::F8 => ("F8"@, "F8"@, 119u32, 0u32),
        KeyCode::F9 => ("F9"@, "F9"@, 120u32, 0u32),
        KeyCode::F10 => ("F10"@, "F10"@, 121u32, 0u32),
        KeyCode::F11 => ("F11"@, "F11"@, 122u32, 0u32),
        KeyCode::F12 => ("F12"@, "F12"@, 123u32, 0u32),
        KeyCode::ArrowUp => ("ArrowUp"@, "ArrowUp"@, 38u32, 0u32),
        KeyCode::ArrowDown => ("ArrowDown"@, "ArrowDown"@, 40u32, 0u32),
        KeyCode::ArrowLeft => ("ArrowLeft"@, "ArrowLeft"@, 37u32, 0u32),
        KeyCode::ArrowRight => ("ArrowRight"@, "ArrowRight"@, 39u32, 0u32),
        KeyCode::ShiftLeft => ("Shift"@, "ShiftLeft"@, 16u32, 1u32),
        KeyCode::ShiftRight => ("Shift"@, "ShiftRight"@, 16u32, 2u32),
        KeyCode::ControlLeft => ("Control"@, "ControlLeft"@, 17u32, 1u32),
        KeyCode::ControlRight => ("Control"@, "ControlRight"@, 17u32, 2u32),
        KeyCode::AltLeft => ("Alt"@, "AltLeft"@, 18u32, 1u32),
        KeyCode::AltRight => ("Alt"@, "AltRight"@, 18u32, 2u32),
        KeyCode::SuperLeft => ("Meta"@, "MetaLeft"@, 91u32, 1u32),
        KeyCode::SuperRight => ("Meta"@, "MetaRight"@, 92u32, 2u32),
        KeyCode::Escape => ("Escape"@, "Escape"@, 27u32, 0u32),
        KeyCode::Enter => ("Enter"@, "Enter"@, 13u32, 0u32),
        KeyCode::Tab => ("Tab"@, "Tab"@, 9u32, 0u32),
        KeyCode::Space => (" "@, "Space"@, 32u32, 0u32),
        KeyCode::Backspace => ("Backspace"@, "Backspace"@, 8u32, 0u32),
        KeyCode::Delete => ("Delete"@, "Delete"@, 46u32, 0u32),
        KeyCode::Insert => ("Insert"@, "Insert"@, 45u32, 0u32),
        KeyCode::Home => ("Home"@, "Home"@, 36u32, 0u32),
        KeyCode::End => ("End"@, "End"@, 35u32, 0u32),
        KeyCode::PageUp => ("PageUp"@, "PageUp"@, 33u32, 0u32),
        KeyCode::PageDown => ("PageDown"@, "PageDown"@, 34u32, 0u32),
        KeyCode::CapsLock => ("CapsLock"@, "CapsLock"@, 20u32, 0u32),
        KeyCode::Minus => ("-"@, "Minus"@, 189u32, 0u32),
        KeyCode::Equal => ("="@, "Equal"@, 187u32, 0u32),
        KeyCode::BracketLeft => ("["@, "BracketLeft"@, 219u32, 0u32),
        KeyCode::BracketRight => ("]"@, "BracketRight"@, 221u32, 0u32),
        KeyCode::Backslash => ("\\"@, "Backslash"@, 220u32, 0u32),
        KeyCode::Semicolon => (";"@, "Semicolon"@, 186u32, 0u32),
        KeyCode::Quote => ("'"@, "Quote"@, 222u32, 0u32),
        KeyCode::Backquote => ("`"@, "Backquote"@, 192u32, 0u32),
        KeyCode::Comma => (","@, "Comma"@, 188u32, 0u32),
        KeyCode::Period => ("."@, "Period"@, 190u32, 0u32),
        KeyCode::Slash => ("/"@, "Slash"@, 191u32, 0u32),
        KeyCode::Numpad0 => ("0"@, "Numpad0"@, 96u32, 3u32),
        KeyCode::Numpad1 => ("1"@, "Numpad1"@, 97u32, 3u32),
        KeyCode::Numpad2 => ("2"@, "Numpad2"@, 98u32, 3u32),
        KeyCode::Numpad3 => ("3"@, "Numpad3"@, 99u32, 3u32),
        KeyCode::Numpad4 => ("4"@, "Numpad4"@, 100u32, 3u32),
        KeyCode::Numpad5 => ("5"@, "Numpad5"@, 101u32, 3u32),
        KeyCode::Numpad6 => ("6"@, "Numpad6"@, 102u32, 3u32),
        KeyCode::Numpad7 => ("7"@, "Numpad7"@, 103u32, 3u32),
        KeyCode::Numpad8 => ("8"@, "Numpad8"@, 104u32, 3u32),
        KeyCode::Numpad9 => ("9"@, "Numpad9"@, 105u32, 3u32),
        KeyCode::NumpadAdd => ("+"@, "NumpadAdd"@, 107u32, 3u32),
        KeyCode::NumpadSubtract => ("-"@, "NumpadSubtract"@, 109u32, 3u32),
        KeyCode::NumpadMultiply => ("*"@, "NumpadMultiply"@, 106u32, 3u32),
        KeyCode::NumpadDivide => ("/"@, "NumpadDivide"@, 111u32, 3u32),
        KeyCode::NumpadDecimal => ("."@, "NumpadDecimal"@, 110u32, 3u32),
        KeyCode::NumpadEnter => ("Enter"@, "NumpadEnter"@, 13u32, 3u32),
        KeyCode::Other => ("Unidentified"@, "Unidentified"@, 0u32, 0u32),
    }
}

/// The browser key event fields of a physical key.
pub fn keycode_to_js(keycode: KeyCode) -> (r: (String, String, u32, u32))
    ensures
        r.0@ == keycode_spec(keycode).0,
        r.1@ == keycode_spec(keycode).1,
        r.2 == keycode_spec(keycode).2,
        r.3 == keycode_spec(keycode).3,
{
    let (key, code, key_code, location): (&str, &str, u32, u32) = match keycode {
        KeyCode::KeyA => ("a", "KeyA", 65, 0),
        KeyCode::KeyB => ("b", "KeyB", 66, 0),
        KeyCode::KeyC => ("c", "KeyC", 67, 0),
        KeyCode::KeyD => ("d", "KeyD", 68, 0),
        KeyCode::KeyE => ("e", "KeyE", 69, 0),
        KeyCode::KeyF => ("f", "KeyF", 70, 0),
        KeyCode::KeyG => ("g", "KeyG", 71, 0),
        KeyCode::KeyH => ("h", "KeyH", 72, 0),
        KeyCode::KeyI => ("i", "KeyI", 73, 0),
        KeyCode::KeyJ => ("j", "KeyJ", 74, 0),
        KeyCode::KeyK => ("k", "KeyK", 75, 0),
        KeyCode::KeyL => ("l", "KeyL", 76, 0),
        KeyCode::KeyM => ("m", "KeyM", 77, 0),
        KeyCode::KeyN => ("n", "KeyN", 78, 0),
        KeyCode::KeyO => ("o", "KeyO", 79, 0),
        KeyCode::KeyP => ("p", "KeyP", 80, 0),
        KeyCode::KeyQ => ("q", "KeyQ", 81, 0),
        KeyCode::KeyR => ("r", "KeyR", 82, 0),
        KeyCode::KeyS => ("s", "KeyS", 83, 0),
        KeyCode::KeyT => ("t", "KeyT", 84, 0),
        KeyCode::KeyU => ("u", "KeyU", 85, 0),
        KeyCode::KeyV => ("v", "KeyV", 86, 0),
        KeyCode::KeyW => ("w", "KeyW", 87, 0),
        KeyCode::KeyX => ("x", "KeyX", 88, 0),
        KeyCode::KeyY => ("y", "KeyY", 89, 0),
        KeyCode::KeyZ => ("z", "KeyZ", 90, 0),
        KeyCode::Digit0 => ("0", "Digit0", 48, 0),
        KeyCode::Digit1 => ("1", "Digit1", 49, 0),
        KeyCode::Digit2 => ("2", "Digit2", 50, 0),
        KeyCode::Digit3 => ("3", "Digit3", 51, 0),
        KeyCode::Digit4 => ("4", "Digit4", 52, 0),
        KeyCode::Digit5 => ("5", "Digit5", 53, 0),
        KeyCode::Digit6 => ("6", "Digit6", 54, 0),
        KeyCode::Digit7 => ("7", "Digit7", 55, 0),
        KeyCode::Digit8 => ("8", "Digit8", 56, 0),
        KeyCode::Digit9 => ("9", "Digit9", 57, 0),
        KeyCode::F1 => ("F1", "F1", 112, 0),
        KeyCode::F2 => ("F2", "F2", 113, 0),
        KeyCode::F3 => ("F3", "F3", 114, 0),
        KeyCode::F4 => ("F4", "F4", 115, 0),
        KeyCode::F5 => ("F5", "F5", 116, 0),
        KeyCode::F6 => ("F6", "F6", 117, 0),
        KeyCode::F7 => ("F7", "F7", 118, 0),
        KeyCode::F8 => ("F8", "F8", 119, 0),
        KeyCode::F9 => ("F9", "F9", 120, 0),
        KeyCode::F10 => ("F10", "F10", 121, 0),
        KeyCode::F11 => ("F11", "F11", 122, 0),
        KeyCode::F12 => ("F12", "F12", 123, 0),
        KeyCode::ArrowUp => ("ArrowUp", "ArrowUp", 38, 0),
        KeyCode::ArrowDown => ("ArrowDown", "ArrowDown", 40, 0),
        KeyCode::ArrowLeft => ("ArrowLeft", "ArrowLeft", 37, 0),
        KeyCode::ArrowRight => ("ArrowRight", "ArrowRight", 39, 0),
        KeyCode::ShiftLeft => ("Shift", "ShiftLeft", 16, 1),
        KeyCode::ShiftRight => ("Shift", "ShiftRight", 16, 2),
        KeyCode::ControlLeft => ("Control", "ControlLeft", 17, 1),
        KeyCode::ControlRight => ("Control", "ControlRight", 17, 2),
        KeyCode::AltLeft => ("Alt", "AltLeft", 18, 1),
        KeyCode::AltRight => ("Alt", "AltRight", 18, 2),
        KeyCode::SuperLeft => ("Meta", "MetaLeft", 91, 1),
        KeyCode::SuperRight => ("Meta", "MetaRight", 92, 2),
        KeyCode::Escape => ("Escape", "Escape", 27, 0),
        KeyCode::Enter => ("Enter", "Enter", 13, 0),
        KeyCode::Tab => ("Tab", "Tab", 9, 0),
        KeyCode::Space => (" ", "Space", 32, 0),
        KeyCode::Backspace => ("Backspace", "Backspace", 8, 0),
        KeyCode::Delete => ("Delete", "Delete", 46, 0),
        KeyCode::Insert => ("Insert", "Insert", 45, 0),
        KeyCode::Home => ("Home", "Home", 36, 0),
        KeyCode::End => ("End", "End", 35, 0),
        KeyCode::PageUp => ("PageUp", "PageUp", 33, 0),
        KeyCode::PageDown => ("PageDown", "PageDown", 34, 0),
        KeyCode::CapsLock => ("CapsLock", "CapsLock", 20, 0),
        KeyCode::Minus => ("-", "Minus", 189, 0),
        KeyCode::Equal => ("=", "Equal", 187, 0),
        KeyCode::BracketLeft => ("[", "BracketLeft", 219, 0),
        KeyCode::BracketRight => ("]", "BracketRight", 221, 0),
        KeyCode::Backslash => ("\\", "Backslash", 220, 0),
        KeyCode::Semicolon => (";", "Semicolon", 186, 0),
        KeyCode::Quote => ("'", "Quote", 222, 0),
        KeyCode::Backquote => ("`", "Backquote", 192, 0),
        KeyCode::Comma => (",", "Comma", 188, 0),
        KeyCode::Period => (".", "Period", 190, 0),
        KeyCode::Slash => ("/", "Slash", 191, 0),
        KeyCode::Numpad0 => ("0", "Numpad0", 96, 3),
        KeyCode::Numpad1 => ("1", "Numpad1", 97, 3),
        KeyCode::Numpad2 => ("2", "Numpad2", 98, 3),
        KeyCode::Numpad3 => ("3", "Numpad3", 99, 3),
        KeyCode::Numpad4 => ("4", "Numpad4", 100, 3),
        KeyCode::Numpad5 => ("5", "Numpad5", 101, 3),
        KeyCode::Numpad6 => ("6", "Numpad6", 102, 3),
        KeyCode::Numpad7 => ("7", "Numpad7", 103, 3),
        KeyCode::Numpad8 => ("8", "Numpad8", 104, 3),
        KeyCode::Numpad9 => ("9", "Numpad9", 105, 3),
        KeyCode::NumpadAdd => ("+", "NumpadAdd", 107, 3),
        KeyCode::NumpadSubtract => ("-", "NumpadSubtract", 109, 3),
        KeyCode::NumpadMultiply => ("*", "NumpadMultiply", 106, 3),
        KeyCode::NumpadDivide => ("/", "NumpadDivide", 111, 3),
        KeyCode::NumpadDecimal => (".", "NumpadDecimal", 110, 3),
        KeyCode::NumpadEnter => ("Enter", "NumpadEnter", 13, 3),
        KeyCode::Other => ("Unidentified", "Unidentified", 0, 0),
    };
    (owned(key), owned(code), key_code, location)
}

/// The browser `key` value of a named key.
pub open spec fn named_key_spec(n: NamedKey) -> Seq<char> {
    match n {
        NamedKey::Shift => "Shift"@,
        NamedKey::Control => "Control"@,
        NamedKey::Alt => "Alt"@,
        NamedKey::Super => "Meta"@,
        NamedKey::Enter => "Enter"@,
        NamedKey::Tab => "Tab"@,
        NamedKey::Space => " "@,
        NamedKey::Backspace => "Backspace"@,
        NamedKey::Escape => "Escape"@,
        NamedKey::Delete => "Delete"@,
        NamedKey::Insert => "Insert"@,
        NamedKey::Home => "Home"@,
        NamedKey::End => "End"@,
        NamedKey::PageUp => "PageUp"@,
        NamedKey::PageDown => "PageDown"@,
        NamedKey::CapsLock => "CapsLock"@,
        NamedKey::ArrowUp => "ArrowUp"@,
        NamedKey::ArrowDown => "ArrowDown"@,
        NamedKey::ArrowLeft => "ArrowLeft"@,
        NamedKey::ArrowRight => "ArrowRight"@,
        NamedKey::F1 => "F1"@,
        NamedKey::F2 => "F2"@,
        NamedKey::F3 => "F3"@,
        NamedKey::F4 => "F4"@,
        NamedKey::F5 => "F5"@,
        NamedKey::F6 => "F6"@,
        NamedKey::F7 => "F7"@,
        NamedKey::F8 => "F8"@,
        NamedKey::F9 => "F9"@,
        NamedKey::F10 => "F10"@,
        NamedKey::F11 => "F11"@,
        NamedKey::F12 => "F12"@,
        NamedKey::NumLock => "NumLock"@,
        NamedKey::ScrollLock => "ScrollLock"@,
        NamedKey::PrintScreen => "PrintScreen"@,
        NamedKey::Pause => "Pause"@,
        NamedKey::ContextMenu => "ContextMenu"@,
        NamedKey::Other => "Unidentified"@,
    }
}

/// The browser `key` value of a named key.
pub fn named_key_to_js_string(named: NamedKey) -> (r: String)
    ensures
        r@ == named_key_spec(named),
{
    let s: &str = match named {
        NamedKey::Shift => "Shift",
        NamedKey::Control => "Control",
        NamedKey::Alt => "Alt",
        NamedKey::Super => "Meta",
        NamedKey::Enter => "Enter",
        NamedKey::Tab => "Tab",
        NamedKey::Space => " ",
        NamedKey::Backspace => "Backspace",
        NamedKey::Escape => "Escape",
        NamedKey::Delete => "Delete",
        NamedKey::Insert => "Insert",
        NamedKey::Home => "Home",
        NamedKey::End => "End",
        NamedKey::PageUp => "PageUp",
        NamedKey::PageDown => "PageDown",
        NamedKey::CapsLock => "CapsLock",
        NamedKey::ArrowUp => "ArrowUp",
        NamedKey::ArrowDown => "ArrowDown",
        NamedKey::ArrowLeft => "ArrowLeft",
        NamedKey::ArrowRight => "ArrowRight",
        NamedKey::F1 => "F1",
        NamedKey::F2 => "F2",
        NamedKey::F3 => "F3",
        NamedKey::F4 => "F4",
        NamedKey::F5 => "F5",
        NamedKey::F6 => "F6",
        NamedKey::F7 => "F7",
        NamedKey::F8 => "F8",
        NamedKey::F9 => "F9",
        NamedKey::F10 => "F10",
        NamedKey::F11 => "F11",
        NamedKey::F12 => "F12",
        NamedKey::NumLock => "NumLock",
        NamedKey::ScrollLock => "ScrollLock",
        NamedKey::PrintScreen => "PrintScreen",
        NamedKey::Pause => "Pause",
        NamedKey::ContextMenu => "ContextMenu",
        NamedKey::Other => "Unidentified",
    };
    owned(s)
}

/// The browser `key` value of a logical key: its character, its name,
/// "Dead" or "Unidentified".
pub open spec fn logical_key_spec(k: Key) -> Seq<char> {
    match k {
        Key::Character(s) => s@,
        Key::Named(n) => named_key_spec(n),
        Key::Dead => "Dead"@,
        Key::Unidentified => "Unidentified"@,
    }
}

/// The browser `key` value of a logical key.
pub fn logical_key_to_js_key(logical_key: &Key) -> (r: String)
    ensures
        r@ == logical_key_spec(*logical_key),
{
    match logical_key {
        Key::Character(s) => s.clone(),
        Key::Named(n) => named_key_to_js_string(*n),
        Key::Dead => owned("Dead"),
        Key::Unidentified => owned("Unidentified"),
    }
}

/// Modifier keys held down.
#[derive(Clone, Copy, Debug, PartialEq, Eq, Structural, Default)]
pub struct ModifierState {
    pub ctrl: bool,
    pub shift: bool,
    pub alt: bool,
    pub meta: bool,
}

/// A key event as scripts receive it.
#[derive(Clone, Debug)]
pub struct KeyEventData {
    pub key: String,
    pub code: String,
    pub key_code: u32,
    pub location: u32,
    pub repeat: bool,
    pub ctrl_key: bool,
    pub shift_key: bool,
    pub alt_key: bool,
    pub meta_key: bool,
}

/// A physical key as the windowing system reports it.
#[derive(Clone, Copy, Debug, PartialEq, Eq, Structural)]
pub enum PhysicalKey {
    Code(KeyCode),
    Unidentified,
}

/// A key event: `code`, `keyCode` and `location` come from the physical
/// key (an unidentified one gives "Unidentified", 0, 0), `key` from the
/// logical key, and the modifier flags from the current modifiers.
pub fn key_event(physical: PhysicalKey, logical: &Key, repeat: bool, mods: ModifierState) -> (r: KeyEventData)
    ensures
        r.key@ == logical_key_spec(*logical),
        r.code@ == (match physical {
            PhysicalKey::Code(k) => keycode_spec(k).1,
            PhysicalKey::Unidentified => "Unidentified"@,
        }),
        r.key_code == (match physical {
            PhysicalKey::Code(k) => keycode_spec(k).2,
            PhysicalKey::Unidentified => 0u32,
        }),
        r.location == (match physical {
            PhysicalKey::Code(k) => keycode_spec(k).3,
            PhysicalKey::Unidentified => 0u32,
        }),
        r.repeat == repeat,
        r.ctrl_key == mods.ctrl,
        r.shift_key == mods.shift,
        r.alt_key == mods.alt,
        r.meta_key == mods.meta,
{
    let (code, key_code, location) = match physical {
        PhysicalKey::Code(k) => {
            let (_fallback, code, key_code, location) = keycode_to_js(k);
            (code, key_code, location)
        },
        PhysicalKey::Unidentified => (owned("Unidentified"), 0u32, 0u32),
    };
    KeyEventData {
        key: logical_key_to_js_key(logical),
        code,
        key_code,
        location,
        repeat,
        ctrl_key: mods.ctrl,
        shift_key: mods.shift,
        alt_key: mods.alt,
        meta_key: mods.meta,
    }
}

/// A window resize as scripts receive it.
#[derive(Clone, Copy, Debug, PartialEq, Eq, Structural)]
pub struct ResizeEventData {
    pub width: u32,
    pub height: u32,
}

/// Mouse buttons as the windowing system reports them.
#[derive(Clone, Copy, Debug, PartialEq, Eq, Structural)]
pub enum MouseButton {
    Left,
    Right,
    Middle,
    Back,
    Forward,
    Other(u16),
}

/// The browser `button` number and `buttons` bit of a mouse button: left,
/// middle, right, back and forward are 0..4 with bits 1, 4, 2, 8, 16; any
/// other button `n` is number `n` with bit `n`, capped at bit 15.
pub open spec fn mouse_button_spec(b: MouseButton) -> (i16, u16) {
    match b {
        MouseButton::Left => (0i16, 1u16),
        MouseButton::Middle => (1i16, 4u16),
        MouseButton::Right => (2i16, 2u16),
        MouseButton::Back => (3i16, 8u16),
        MouseButton::Forward => (4i16, 16u16),
        MouseButton::Other(n) => (n as i16, (1u16 << (if n < 15 { n } else { 15u16 })) as u16),
    }
}

/// The mouse button a browser reports by its `button` number, for the five
/// standard buttons (0 main, 1 auxiliary, 2 secondary, 3 back, 4 forward).
pub open spec fn button_from_js(number: i16) -> Option<MouseButton> {
    if number == 0 { Some(MouseButton::Left) }
    else if number == 1 { Some(MouseButton::Middle) }
    else if number == 2 { Some(MouseButton::Right) }
    else if number == 3 { Some(MouseButton::Back) }
    else if number == 4 { Some(MouseButton::Forward) }
    else { None }
}

/// The five standard buttons get the DOM's `button` numbers, so a script
/// tells them apart by number, and each gets a `buttons` bit of its own; the
/// bit of any button is a single bit.
pub proof fn lemma_mouse_buttons_distinct(b: MouseButton, c: MouseButton)
    ensures
        !(b is Other) ==> button_from_js(mouse_button_spec(b).0) == Some(b),
        !(b is Other) && !(c is Other) && b != c ==> mouse_button_spec(b).1 != mouse_button_spec(c).1,
        mouse_button_spec(b).1 != 0,
        mouse_button_spec(b).1 & (mouse_button_spec(b).1 - 1) as u16 == 0,
{
    let v: u16 = mouse_button_spec(b).1;
    if let MouseButton::Other(n) = b {
        let sh: u16 = if n < 15 { n } else { 15u16 };
        assert(v == 1u16 << sh);
        assert(v != 0 && v & ((v - 1) as u16) == 0) by (bit_vector)
            requires
                v == 1u16 << sh,
                sh < 16,
        ;
    } else {
        assert(v != 0 && v & ((v - 1) as u16) == 0) by (bit_vector)
            requires
                v == 1u16 || v == 2u16 || v == 4u16 || v == 8u16 || v == 16u16,
        ;
    }
}

/// The browser `button` number and `buttons` bit of a mouse button.
pub fn mouse_button_js(b: MouseButton) -> (r: (i16, u16))
    ensures
        r == mouse_button_spec(b),
{
    match b {
        MouseButton::Left => (0, 1),
        MouseButton::Middle => (1, 4),
        MouseButton::Right => (2, 2),
        MouseButton::Back => (3, 8),
        MouseButton::Forward => (4, 16),
        MouseButton::Other(n) => {
            let shift: u16 = if n < 15 { n } else { 15 };
            (n as i16, 1u16 << shift)
        },
    }
}

/// The pressed-buttons mask after a press (bit set) or release (bit cleared).
pub open spec fn buttons_after_spec(current: u16, mask: u16, pressed: bool) -> u16 {
    if pressed { current | mask } else { current & !mask }
}

/// Updates the pressed-buttons mask for a press or release.
pub fn buttons_after(current: u16, mask: u16, pressed: bool) -> (r: u16)
    ensures
        r == buttons_after_spec(current, mask, pressed),
{
    if pressed { current | mask } else { current & !mask }
}

/// Pressing a button and releasing it again leaves every other button as it
/// was and the released one up; pressing sets its bit whatever came before.
pub proof fn lemma_press_release(current: u16, mask: u16)
    ensures
        buttons_after_spec(buttons_after_spec(current, mask, true), mask, false) == current & !mask,
        buttons_after_spec(current, mask, true) & mask == mask,
        buttons_after_spec(current, mask, false) & mask == 0,
{
    assert((current | mask) & !mask == current & !mask) by (bit_vector);
    assert((current | mask) & mask == mask) by (bit_vector);
    assert((current & !mask) & mask == 0) by (bit_vector);
}

/// The pointer events scripts receive.
#[derive(Clone, Copy, Debug, PartialEq, Eq, Structural)]
pub enum PointerEventKind {
    Down,
    Up,
    Move,
    Cancel,
}

/// The kinds of pointer scripts are told about.
#[derive(Clone, Copy, Debug, PartialEq, Eq, Structural)]
pub enum PointerType {
    Mouse,
    Touch,
}

/// The `pointerType` text of a pointer kind.
pub open spec fn pointer_type_name_spec(t: PointerType) -> Seq<char> {
    match t {
        PointerType::Mouse => "mouse"@,
        PointerType::Touch => "touch"@,
    }
}

impl PointerType {
    /// The `pointerType` text of a pointer kind.
    pub fn name(&self) -> (r: &'static str)
        ensures
            r@ == pointer_type_name_spec(*self),
    {
        match self {
            PointerType::Mouse => "mouse",
            PointerType::Touch => "touch",
        }
    }
}

/// What a mouse press or release produces.
#[derive(Clone, Copy, Debug, PartialEq, Eq, Structural)]
pub struct MouseOutcome {
    pub kind: PointerEventKind,
    /// The mouse is pointer 0, of type "mouse", and always primary.
    pub pointer_id: i32,
    pub pointer_type: PointerType,
    pub is_primary: bool,
    pub button: i16,
    /// The pressed-buttons mask after the event; also stored for the mouse pointer.
    pub buttons: u16,
    /// A right-button release also raises a context menu event, with this
    /// button number (2) and the same buttons mask.
    pub context_menu: Option<i16>,
}

/// Handles a mouse press or release given the buttons held before.
pub fn mouse_input(current: u16, button: MouseButton, pressed: bool) -> (r: MouseOutcome)
    ensures
        r.kind == (if pressed { PointerEventKind::Down } else { PointerEventKind::Up }),
        r.pointer_id == 0 && r.pointer_type == PointerType::Mouse && r.is_primary,
        r.button == mouse_button_spec(button).0,
        r.buttons == buttons_after_spec(current, mouse_button_spec(button).1, pressed),
        r.context_menu == (if button == MouseButton::Right && !pressed { Some(2i16) } else { None }),
{
    let (num, mask) = mouse_button_js(button);
    let buttons = buttons_after(current, mask, pressed);
    let right = match button { MouseButton::Right => true, _ => false };
    MouseOutcome {
        kind: if pressed { PointerEventKind::Down } else { PointerEventKind::Up },
        pointer_id: 0,
        pointer_type: PointerType::Mouse,
        is_primary: true,
        button: num,
        buttons,
        context_menu: if right && !pressed { Some(2) } else { None },
    }
}

/// Touch phases as the windowing system reports them.
#[derive(Clone, Copy, Debug, PartialEq, Eq, Structural)]
pub enum TouchPhase {
    Started,
    Moved,
    Ended,
    Cancelled,
}

/// How a touch changes the host's record of a pointer.
#[derive(Clone, Copy, Debug, PartialEq, Eq, Structural)]
pub enum PointerUpdate {
    /// Record the position and mark the primary button held.
    PressAt,
    /// Record the position, keeping the buttons.
    MoveTo,
    /// Forget the pointer.
    Remove,
}

/// What a touch produces.
#[derive(Clone, Copy, Debug, PartialEq, Eq, Structural)]
pub struct TouchOutcome {
    pub kind: PointerEventKind,
    /// A touch is of type "touch" and reports button 0.
    pub pointer_type: PointerType,
    pub button: i16,
    pub buttons: u16,
    pub is_primary: bool,
    pub update: PointerUpdate,
}

/// Handles a touch: a started touch presses, a moved one moves, an ended
/// one releases and a cancelled one cancels; touch 0 is the primary pointer.
pub fn touch_input(phase: TouchPhase, pointer_id: i32) -> (r: TouchOutcome)
    ensures
        r.is_primary == (pointer_id == 0),
        r.pointer_type == PointerType::Touch && r.button == 0,
        r.buttons == (if phase == TouchPhase::Started || phase == TouchPhase::Moved { 1u16 } else { 0u16 }),
        phase == TouchPhase::Started ==> r.kind == PointerEventKind::Down && r.update == PointerUpdate::PressAt,
        phase == TouchPhase::Moved ==> r.kind == PointerEventKind::Move && r.update == PointerUpdate::MoveTo,
        phase == TouchPhase::Ended ==> r.kind == PointerEventKind::Up && r.update == PointerUpdate::Remove,
        phase == TouchPhase::Cancelled ==> r.kind == PointerEventKind::Cancel && r.update == PointerUpdate::Remove,
{
    let (kind, buttons, update) = match phase {
        TouchPhase::Started => (PointerEventKind::Down, 1u16, PointerUpdate::PressAt),
        TouchPhase::Moved => (PointerEventKind::Move, 1u16, PointerUpdate::MoveTo),
        TouchPhase::Ended => (PointerEventKind::Up, 0u16, PointerUpdate::Remove),
        TouchPhase::Cancelled => (PointerEventKind::Cancel, 0u16, PointerUpdate::Remove),
    };
    TouchOutcome { kind, pointer_type: PointerType::Touch, button: 0, buttons, is_primary: pointer_id == 0, update }
}

/// Cursor icons the host can show.
#[derive(Clone, Copy, Debug, PartialEq, Eq, Structural)]
pub enum CursorIcon {
    Default,
    Pointer,
    Grab,
}

/// The icon a CSS cursor style asks for: "pointer", "grab", else the default arrow.
pub fn cursor_icon(style: &str) -> (r: CursorIcon)
    ensures
        r == (if style@ == "pointer"@ { CursorIcon::Pointer }
            else if style@ == "grab"@ { CursorIcon::Grab }
            else { CursorIcon::Default }),
{
    if crate::text::str_eq(style, "pointer") {
        CursorIcon::Pointer
    } else if crate::text::str_eq(style, "grab") {
        CursorIcon::Grab
    } else {
        CursorIcon::Default
    }
}

/// Pointer-lock and cursor requests made by scripts, applied by the
/// windowing loop between frames.
#[derive(Clone, Debug)]
pub struct PointerLockState {
    pub lock_requested: bool,
    pub exit_requested: bool,
    pub locked: bool,
    pub cursor_style_requested: Option<String>,
    pub window_width: u32,
    pub window_height: u32,
}

/// What applying the pending requests did.
#[derive(Clone, Debug)]
pub struct LockChanges {
    /// The cursor to show, when a style was requested.
    pub cursor: Option<CursorIcon>,
    /// Grab and hide the cursor, then report `locked: true`.
    pub locked: bool,
    /// Release and show the cursor, then report `locked: false`.
    pub unlocked: bool,
}

impl PointerLockState {
    /// Nothing requested, not locked, zero-sized window.
    pub fn new() -> (s: Self)
        ensures
            !s.lock_requested && !s.exit_requested && !s.locked,
            s.cursor_style_requested is None,
            s.window_width == 0 && s.window_height == 0,
    {
        PointerLockState {
            lock_requested: false,
            exit_requested: false,
            locked: false,
            cursor_style_requested: None,
            window_width: 0,
            window_height: 0,
        }
    }

    /// A script asks for pointer lock; the request is always accepted.
    pub fn request_pointer_lock(&mut self) -> (r: bool)
        ensures
            r,
            final(self).lock_requested,
            final(self).exit_requested == old(self).exit_requested,
            final(self).locked == old(self).locked,
            final(self).cursor_style_requested == old(self).cursor_style_requested,
    {
        self.lock_requested = true;
        true
    }

    /// A script asks to leave pointer lock.
    pub fn exit_pointer_lock(&mut self)
        ensures
            final(self).exit_requested,
            final(self).lock_requested == old(self).lock_requested,
            final(self).locked == old(self).locked,
            final(self).cursor_style_requested == old(self).cursor_style_requested,
    {
        self.exit_requested = true;
    }

    /// Whether the pointer is locked.
    pub fn is_pointer_locked(&self) -> (r: bool)
        ensures
            r == self.locked,
    {
        self.locked
    }

    /// A script asks for a cursor style; the latest request wins.
    pub fn set_cursor_style(&mut self, style: &str)
        ensures
            final(self).cursor_style_requested matches Some(s) && s@ == style@,
            final(self).lock_requested == old(self).lock_requested,
            final(self).exit_requested == old(self).exit_requested,
            final(self).locked == old(self).locked,
    {
        self.cursor_style_requested = Some(owned(style));
    }

    /// Raw mouse motion reaches scripts only while the pointer is locked.
    pub fn forwards_raw_motion(&self) -> (r: bool)
        ensures
            r == self.locked,
    {
        self.locked
    }

    /// Cursor moves reach scripts only while the pointer is not locked.
    pub fn forwards_cursor_moves(&self) -> (r: bool)
        ensures
            r == !self.locked,
    {
        !self.locked
    }

    /// Applies the pending requests between frames: the cursor style first,
    /// then a lock request, then an exit request. Afterwards nothing is pending.
    pub fn apply_requests(&mut self) -> (r: LockChanges)
        ensures
            !final(self).lock_requested,
            !final(self).exit_requested,
            final(self).cursor_style_requested is None,
            r.cursor == (match old(self).cursor_style_requested {
                Some(s) => Some(if s@ == "pointer"@ { CursorIcon::Pointer }
                    else if s@ == "grab"@ { CursorIcon::Grab } else { CursorIcon::Default }),
                None => None,
            }),
            r.locked == old(self).lock_requested,
            r.unlocked == old(self).exit_requested,
            final(self).locked == (if old(self).exit_requested { false }
                else if old(self).lock_requested { true } else { old(self).locked }),
            final(self).window_width == old(self).window_width,
            final(self).window_height == old(self).window_height,
    {
        let cursor = match self.cursor_style_requested.take() {
            Some(s) => Some(cursor_icon(s.as_str())),
            None => None,
        };
        let locked = self.lock_requested;
        if locked {
            self.lock_requested = false;
            self.locked = true;
        }
        let unlocked = self.exit_requested;
        if unlocked {
            self.exit_requested = false;
            self.locked = false;
        }
        LockChanges { cursor, locked, unlocked }
    }

    /// Records the window size and reports the resize to scripts.
    pub fn handle_resize(&mut self, width: u32, height: u32) -> (r: ResizeEventData)
        ensures
            final(self).window_width == width,
            final(self).window_height == height,
            r == (ResizeEventData { width, height }),
            final(self).locked == old(self).locked,
            final(self).lock_requested == old(self).lock_requested,
            final(self).exit_requested == old(self).exit_requested,
            final(self).cursor_style_requested == old(self).cursor_style_requested,
    {
        self.window_width = width;
        self.window_height = height;
        ResizeEventData { width, height }
    }
}

} // verus!
