//! The physical keys that key combinations are registered with.
use vstd::prelude::*;
use crate::models::input::keyboard::WayclipKeyCode;
use crate::text::{ascii_lower_char, char_to_ascii_lower};

verus! {

/// The physical key codes that the global hotkey machinery listens for.
#[derive(Debug, Clone, Copy, PartialEq, Eq, Hash, Structural)]
pub enum HotkeyCode {
    KeyA,
    KeyB,
    KeyC,
    KeyD,
    KeyE,
    KeyF,
    KeyG,
    KeyH,
    KeyI,
    KeyJ,
    KeyK,
    KeyL,
    KeyM,
    KeyN,
    KeyO,
    KeyP,
    KeyQ,
    KeyR,
    KeyS,
    KeyT,
    KeyU,
    KeyV,
    KeyW,
    KeyX,
    KeyY,
    KeyZ,
    Digit0,
    Digit1,
    Digit2,
    Digit3,
    Digit4,
    Digit5,
    Digit6,
    Digit7,
    Digit8,
    Digit9,
    Space,
    Backquote,
    Backslash,
    BracketLeft,
    BracketRight,
    Comma,
    Equal,
    Minus,
    Period,
    Quote,
    Semicolon,
    Slash,
    F1,
    F2,
    F3,
    F4,
    F5,
    F6,
    F7,
    F8,
    F9,
    F10,
    F11,
    F12,
    F13,
    F14,
    F15,
    F16,
    F17,
    F18,
    F19,
    F20,
    F21,
    F22,
    F23,
    F24,
    Enter,
    Escape,
    Backspace,
    Tab,
    ArrowUp,
    ArrowDown,
    ArrowLeft,
    ArrowRight,
    Insert,
    Delete,
    Home,
    End,
    PageUp,
    PageDown,
    CapsLock,
    ScrollLock,
    NumLock,
    PrintScreen,
    Pause,
    Unidentified,
}

/// The physical key of a character key, read case-insensitively.
pub open spec fn char_hotkey_code(c: char) -> HotkeyCode {
    match ascii_lower_char(c) {
        'a' => HotkeyCode::KeyA,
        'b' => HotkeyCode::KeyB,
        'c' => HotkeyCode::KeyC,
        'd' => HotkeyCode::KeyD,
        'e' => HotkeyCode::KeyE,
        'f' => HotkeyCode::KeyF,
        'g' => HotkeyCode::KeyG,
        'h' => HotkeyCode::KeyH,
        'i' => HotkeyCode::KeyI,
        'j' => HotkeyCode::KeyJ,
        'k' => HotkeyCode::KeyK,
        'l' => HotkeyCode::KeyL,
        'm' => HotkeyCode::KeyM,
        'n' => HotkeyCode::KeyN,
        'o' => HotkeyCode::KeyO,
        'p' => HotkeyCode::KeyP,
        'q' => HotkeyCode::KeyQ,
        'r' => HotkeyCode::KeyR,
        's' => HotkeyCode::KeyS,
        't' => HotkeyCode::KeyT,
        'u' => HotkeyCode::KeyU,
        'v' => HotkeyCode::KeyV,
        'w' => HotkeyCode::KeyW,
        'x' => HotkeyCode::KeyX,
        'y' => HotkeyCode::KeyY,
        'z' => HotkeyCode::KeyZ,
        '0' => HotkeyCode::Digit0,
        '1' => HotkeyCode::Digit1,
        '2' => HotkeyCode::Digit2,
        '3' => HotkeyCode::Digit3,
        '4' => HotkeyCode::Digit4,
        '5' => HotkeyCode::Digit5,
        '6' => HotkeyCode::Digit6,
        '7' => HotkeyCode::Digit7,
        '8' => HotkeyCode::Digit8,
        '9' => HotkeyCode::Digit9,
        ' ' => HotkeyCode::Space,
        '`' => HotkeyCode::Backquote,
        '\\' => HotkeyCode::Backslash,
        '[' => HotkeyCode::BracketLeft,
        ']' => HotkeyCode::BracketRight,
        ',' => HotkeyCode::Comma,
        '=' => HotkeyCode::Equal,
        '-' => HotkeyCode::Minus,
        '.' => HotkeyCode::Period,
        '\'' => HotkeyCode::Quote,
        ';' => HotkeyCode::Semicolon,
        '/' => HotkeyCode::Slash,
        _ => HotkeyCode::Unidentified,
    }
}

/// The physical key of a function key; numbers outside 1 to 24 have none.
pub open spec fn function_hotkey_code(n: u8) -> HotkeyCode {
    match n {
        1u8 => HotkeyCode::F1,
        2u8 => HotkeyCode::F2,
        3u8 => HotkeyCode::F3,
        4u8 => HotkeyCode::F4,
        5u8 => HotkeyCode::F5,
        6u8 => HotkeyCode::F6,
        7u8 => HotkeyCode::F7,
        8u8 => HotkeyCode::F8,
        9u8 => HotkeyCode::F9,
        10u8 => HotkeyCode::F10,
        11u8 => HotkeyCode::F11,
        12u8 => HotkeyCode::F12,
        13u8 => HotkeyCode::F13,
        14u8 => HotkeyCode::F14,
        15u8 => HotkeyCode::F15,
        16u8 => HotkeyCode::F16,
        17u8 => HotkeyCode::F17,
        18u8 => HotkeyCode::F18,
        19u8 => HotkeyCode::F19,
        20u8 => HotkeyCode::F20,
        21u8 => HotkeyCode::F21,
        22u8 => HotkeyCode::F22,
        23u8 => HotkeyCode::F23,
        24u8 => HotkeyCode::F24,
        _ => HotkeyCode::Unidentified,
    }
}

fn char_hotkey_code_exec(c: char) -> (k: HotkeyCode)
    ensures
        k == char_hotkey_code(c),
{
    match char_to_ascii_lower(c) {
        'a' => HotkeyCode::KeyA,
        'b' => HotkeyCode::KeyB,
        'c' => HotkeyCode::KeyC,
        'd' => HotkeyCode::KeyD,
        'e' => HotkeyCode::KeyE,
        'f' => HotkeyCode::KeyF,
        'g' => HotkeyCode::KeyG,
        'h' => HotkeyCode::KeyH,
        'i' => HotkeyCode::KeyI,
        'j' => HotkeyCode::KeyJ,
        'k' => HotkeyCode::KeyK,
        'l' => HotkeyCode::KeyL,
        'm' => HotkeyCode::KeyM,
        'n' => HotkeyCode::KeyN,
        'o' => HotkeyCode::KeyO,
        'p' => HotkeyCode::KeyP,
        'q' => HotkeyCode::KeyQ,
        'r' => HotkeyCode::KeyR,
        's' => HotkeyCode::KeyS,
        't' => HotkeyCode::KeyT,
        'u' => HotkeyCode::KeyU,
        'v' => HotkeyCode::KeyV,
        'w' => HotkeyCode::KeyW,
        'x' => HotkeyCode::KeyX,
        'y' => HotkeyCode::KeyY,
        'z' => HotkeyCode::KeyZ,
        '0' => HotkeyCode::Digit0,
        '1' => HotkeyCode::Digit1,
        '2' => HotkeyCode::Digit2,
        '3' => HotkeyCode::Digit3,
        '4' => HotkeyCode::Digit4,
        '5' => HotkeyCode::Digit5,
        '6' => HotkeyCode::Digit6,
        '7' => HotkeyCode::Digit7,
        '8' => HotkeyCode::Digit8,
        '9' => HotkeyCode::Digit9,
        ' ' => HotkeyCode::Space,
        '`' => HotkeyCode::Backquote,
        '\\' => HotkeyCode::Backslash,
        '[' => HotkeyCode::BracketLeft,
        ']' => HotkeyCode::BracketRight,
        ',' => HotkeyCode::Comma,
        '=' => HotkeyCode::Equal,
        '-' => HotkeyCode::Minus,
        '.' => HotkeyCode::Period,
        '\'' => HotkeyCode::Quote,
        ';' => HotkeyCode::Semicolon,
        '/' => HotkeyCode::Slash,
        _ => HotkeyCode::Unidentified,
    }
}

fn function_hotkey_code_exec(n: u8) -> (k: HotkeyCode)
    ensures
        k == function_hotkey_code(n),
{
    match n {
        1u8 => HotkeyCode::F1,
        2u8 => HotkeyCode::F2,
        3u8 => HotkeyCode::F3,
        4u8 => HotkeyCode::F4,
        5u8 => HotkeyCode::F5,
        6u8 => HotkeyCode::F6,
        7u8 => HotkeyCode::F7,
        8u8 => HotkeyCode::F8,
        9u8 => HotkeyCode::F9,
        10u8 => HotkeyCode::F10,
        11u8 => HotkeyCode::F11,
        12u8 => HotkeyCode::F12,
        13u8 => HotkeyCode::F13,
        14u8 => HotkeyCode::F14,
        15u8 => HotkeyCode::F15,
        16u8 => HotkeyCode::F16,
        17u8 => HotkeyCode::F17,
        18u8 => HotkeyCode::F18,
        19u8 => HotkeyCode::F19,
        20u8 => HotkeyCode::F20,
        21u8 => HotkeyCode::F21,
        22u8 => HotkeyCode::F22,
        23u8 => HotkeyCode::F23,
        24u8 => HotkeyCode::F24,
        _ => HotkeyCode::Unidentified,
    }
}

impl WayclipKeyCode {
    /// The physical key this key stands for.
    pub open spec fn hotkey_code_spec(self) -> HotkeyCode {
        match self {
            WayclipKeyCode::Char(c) => char_hotkey_code(c),
            WayclipKeyCode::F(n) => function_hotkey_code(n),
            WayclipKeyCode::Enter => HotkeyCode::Enter,
            WayclipKeyCode::Esc => HotkeyCode::Escape,
            WayclipKeyCode::Backspace => HotkeyCode::Backspace,
            WayclipKeyCode::Tab => HotkeyCode::Tab,
            WayclipKeyCode::Up => HotkeyCode::ArrowUp,
            WayclipKeyCode::Down => HotkeyCode::ArrowDown,
            WayclipKeyCode::Left => HotkeyCode::ArrowLeft,
            WayclipKeyCode::Right => HotkeyCode::ArrowRight,
            WayclipKeyCode::Insert => HotkeyCode::Insert,
            WayclipKeyCode::Delete => HotkeyCode::Delete,
            WayclipKeyCode::Home => HotkeyCode::Home,
            WayclipKeyCode::End => HotkeyCode::End,
            WayclipKeyCode::PageUp => HotkeyCode::PageUp,
            WayclipKeyCode::PageDown => HotkeyCode::PageDown,
            WayclipKeyCode::CapsLock => HotkeyCode::CapsLock,
            WayclipKeyCode::ScrollLock => HotkeyCode::ScrollLock,
            WayclipKeyCode::NumLock => HotkeyCode::NumLock,
            WayclipKeyCode::PrintScreen => HotkeyCode::PrintScreen,
            WayclipKeyCode::Pause => HotkeyCode::Pause,
            WayclipKeyCode::Null => HotkeyCode::Unidentified,
        }
    }

    /// The physical key this key stands for, as the hotkey machinery names it.
    pub fn hotkey_code(&self) -> (k: HotkeyCode)
        ensures
            k == self.hotkey_code_spec(),
    {
        match self {
            WayclipKeyCode::Char(c) => char_hotkey_code_exec(*c),
            WayclipKeyCode::F(n) => function_hotkey_code_exec(*n),
            WayclipKeyCode::Enter => HotkeyCode::Enter,
            WayclipKeyCode::Esc => HotkeyCode::Escape,
            WayclipKeyCode::Backspace => HotkeyCode::Backspace,
            WayclipKeyCode::Tab => HotkeyCode::Tab,
            WayclipKeyCode::Up => HotkeyCode::ArrowUp,
            WayclipKeyCode::Down => HotkeyCode::ArrowDown,
            WayclipKeyCode::Left => HotkeyCode::ArrowLeft,
            WayclipKeyCode::Right => HotkeyCode::ArrowRight,
            WayclipKeyCode::Insert => HotkeyCode::Insert,
            WayclipKeyCode::Delete => HotkeyCode::Delete,
            WayclipKeyCode::Home => HotkeyCode::Home,
            WayclipKeyCode::End => HotkeyCode::End,
            WayclipKeyCode::PageUp => HotkeyCode::PageUp,
            WayclipKeyCode::PageDown => HotkeyCode::PageDown,
            WayclipKeyCode::CapsLock => HotkeyCode::CapsLock,
            WayclipKeyCode::ScrollLock => HotkeyCode::ScrollLock,
            WayclipKeyCode::NumLock => HotkeyCode::NumLock,
            WayclipKeyCode::PrintScreen => HotkeyCode::PrintScreen,
            WayclipKeyCode::Pause => HotkeyCode::Pause,
            WayclipKeyCode::Null => HotkeyCode::Unidentified,
        }
    }
}

} // verus!
