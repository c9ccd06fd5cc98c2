//! Key classification types: physical key codes, modifier sets and key
//! events, with their encodings as raw codes, flag words and symbolic names.

use vstd::prelude::*;

use crate::text::{lowercase, lowercased, str_eq};

verus! {

/// A physical key, identified by its virtual key code.
#[derive(Debug, Clone, Copy, PartialEq, Eq, Hash, Structural)]
pub enum KeyCode {
    // Letters
    A,
    S,
    D,
    F,
    H,
    G,
    Z,
    X,
    C,
    V,
    B,
    Q,
    W,
    E,
    R,
    Y,
    T,
    O,
    U,
    I,
    P,
    L,
    J,
    K,
    N,
    M,
    // Digits
    Num1,
    Num2,
    Num3,
    Num4,
    Num5,
    Num6,
    Num7,
    Num8,
    Num9,
    Num0,
    // Special keys
    Return,
    Tab,
    Space,
    Delete,
    Escape,
    Command,
    Shift,
    CapsLock,
    Option,
    Control,
    RightShift,
    RightOption,
    RightControl,
    Function,
    // Arrow keys
    Left,
    Right,
    Down,
    Up,
    // Function keys
    F1,
    F2,
    F3,
    F4,
    F5,
    F6,
    F7,
    F8,
    F9,
    F10,
    F11,
    F12,
    // Navigation
    Home,
    End,
    PageUp,
    PageDown,
    ForwardDelete,
    // Punctuation
    Equal,
    Minus,
    LeftBracket,
    RightBracket,
    Quote,
    Semicolon,
    Backslash,
    Comma,
    Slash,
    Period,
    Grave,
}

impl KeyCode {
    /// The virtual key code of a key.
    pub open spec fn raw(self) -> u16 {
        match self {
            KeyCode::A => 0x00,
            KeyCode::S => 0x01,
            KeyCode::D => 0x02,
            KeyCode::F => 0x03,
            KeyCode::H => 0x04,
            KeyCode::G => 0x05,
            KeyCode::Z => 0x06,
            KeyCode::X => 0x07,
            KeyCode::C => 0x08,
            KeyCode::V => 0x09,
            KeyCode::B => 0x0B,
            KeyCode::Q => 0x0C,
            KeyCode::W => 0x0D,
            KeyCode::E => 0x0E,
            KeyCode::R => 0x0F,
            KeyCode::Y => 0x10,
            KeyCode::T => 0x11,
            KeyCode::O => 0x1F,
            KeyCode::U => 0x20,
            KeyCode::I => 0x22,
            KeyCode::P => 0x23,
            KeyCode::L => 0x25,
            KeyCode::J => 0x26,
            KeyCode::K => 0x28,
            KeyCode::N => 0x2D,
            KeyCode::M => 0x2E,
            KeyCode::Num1 => 0x12,
            KeyCode::Num2 => 0x13,
            KeyCode::Num3 => 0x14,
            KeyCode::Num4 => 0x15,
            KeyCode::Num5 => 0x17,
            KeyCode::Num6 => 0x16,
            KeyCode::Num7 => 0x1A,
            KeyCode::Num8 => 0x1C,
            KeyCode::Num9 => 0x19,
            KeyCode::Num0 => 0x1D,
            KeyCode::Return => 0x24,
            KeyCode::Tab => 0x30,
            KeyCode::Space => 0x31,
            KeyCode::Delete => 0x33,
            KeyCode::Escape => 0x35,
            KeyCode::Command => 0x37,
            KeyCode::Shift => 0x38,
            KeyCode::CapsLock => 0x39,
            KeyCode::Option => 0x3A,
            KeyCode::Control => 0x3B,
            KeyCode::RightShift => 0x3C,
            KeyCode::RightOption => 0x3D,
            KeyCode::RightControl => 0x3E,
            KeyCode::Function => 0x3F,
            KeyCode::Left => 0x7B,
            KeyCode::Right => 0x7C,
            KeyCode::Down => 0x7D,
            KeyCode::Up => 0x7E,
            KeyCode::F1 => 0x7A,
            KeyCode::F2 => 0x78,
            KeyCode::F3 => 0x63,
            KeyCode::F4 => 0x76,
            KeyCode::F5 => 0x60,
            KeyCode::F6 => 0x61,
            KeyCode::F7 => 0x62,
            KeyCode::F8 => 0x64,
            KeyCode::F9 => 0x65,
            KeyCode::F10 => 0x6D,
            KeyCode::F11 => 0x67,
            KeyCode::F12 => 0x6F,
            KeyCode::Home => 0x73,
            KeyCode::End => 0x77,
            KeyCode::PageUp => 0x74,
            KeyCode::PageDown => 0x79,
            KeyCode::ForwardDelete => 0x75,
            KeyCode::Equal => 0x18,
            KeyCode::Minus => 0x1B,
            KeyCode::LeftBracket => 0x21,
            KeyCode::RightBracket => 0x1E,
            KeyCode::Quote => 0x27,
            KeyCode::Semicolon => 0x29,
            KeyCode::Backslash => 0x2A,
            KeyCode::Comma => 0x2B,
            KeyCode::Slash => 0x2C,
            KeyCode::Period => 0x2F,
            KeyCode::Grave => 0x32,
        }
    }

    /// The key with a given virtual key code, `None` where no key has it.
    pub open spec fn of_raw(code: u16) -> Option<KeyCode> {
        match code {
            0x00 => Some(KeyCode::A),
            0x01 => Some(KeyCode::S),
            0x02 => Some(KeyCode::D),
            0x03 => Some(KeyCode::F),
            0x04 => Some(KeyCode::H),
            0x05 => Some(KeyCode::G),
            0x06 => Some(KeyCode::Z),
            0x07 => Some(KeyCode::X),
            0x08 => Some(KeyCode::C),
            0x09 => Some(KeyCode::V),
            0x0B => Some(KeyCode::B),
            0x0C => Some(KeyCode::Q),
            0x0D => Some(KeyCode::W),
            0x0E => Some(KeyCode::E),
            0x0F => Some(KeyCode::R),
            0x10 => Some(KeyCode::Y),
            0x11 => Some(KeyCode::T),
            0x1F => Some(KeyCode::O),
            0x20 => Some(KeyCode::U),
            0x22 => Some(KeyCode::I),
            0x23 => Some(KeyCode::P),
            0x25 => Some(KeyCode::L),
            0x26 => Some(KeyCode::J),
            0x28 => Some(KeyCode::K),
            0x2D => Some(KeyCode::N),
            0x2E => Some(KeyCode::M),
            0x12 => Some(KeyCode::Num1),
            0x13 => Some(KeyCode::Num2),
            0x14 => Some(KeyCode::Num3),
            0x15 => Some(KeyCode::Num4),
            0x17 => Some(KeyCode::Num5),
            0x16 => Some(KeyCode::Num6),
            0x1A => Some(KeyCode::Num7),
            0x1C => Some(KeyCode::Num8),
            0x19 => Some(KeyCode::Num9),
            0x1D => Some(KeyCode::Num0),
            0x24 => Some(KeyCode::Return),
            0x30 => Some(KeyCode::Tab),
            0x31 => Some(KeyCode::Space),
            0x33 => Some(KeyCode::Delete),
            0x35 => Some(KeyCode::Escape),
            0x37 => Some(KeyCode::Command),
            0x38 => Some(KeyCode::Shift),
            0x39 => Some(KeyCode::CapsLock),
            0x3A => Some(KeyCode::Option),
            0x3B => Some(KeyCode::Control),
            0x3C => Some(KeyCode::RightShift),
            0x3D => Some(KeyCode::RightOption),
            0x3E => Some(KeyCode::RightControl),
            0x3F => Some(KeyCode::Function),
            0x7B => Some(KeyCode::Left),
            0x7C => Some(KeyCode::Right),
            0x7D => Some(KeyCode::Down),
            0x7E => Some(KeyCode::Up),
            0x7A => Some(KeyCode::F1),
            0x78 => Some(KeyCode::F2),
            0x63 => Some(KeyCode::F3),
            0x76 => Some(KeyCode::F4),
            0x60 => Some(KeyCode::F5),
            0x61 => Some(KeyCode::F6),
            0x62 => Some(KeyCode::F7),
            0x64 => Some(KeyCode::F8),
            0x65 => Some(KeyCode::F9),
            0x6D => Some(KeyCode::F10),
            0x67 => Some(KeyCode::F11),
            0x6F => Some(KeyCode::F12),
            0x73 => Some(KeyCode::Home),
            0x77 => Some(KeyCode::End),
            0x74 => Some(KeyCode::PageUp),
            0x79 => Some(KeyCode::PageDown),
            0x75 => Some(KeyCode::ForwardDelete),
            0x18 => Some(KeyCode::Equal),
            0x1B => Some(KeyCode::Minus),
            0x21 => Some(KeyCode::LeftBracket),
            0x1E => Some(KeyCode::RightBracket),
            0x27 => Some(KeyCode::Quote),
            0x29 => Some(KeyCode::Semicolon),
            0x2A => Some(KeyCode::Backslash),
            0x2B => Some(KeyCode::Comma),
            0x2C => Some(KeyCode::Slash),
            0x2F => Some(KeyCode::Period),
            0x32 => Some(KeyCode::Grave),
            _ => None,
        }
    }

    /// The settings name of a key: lower case, words joined by `_`.
    pub open spec fn name(self) -> Seq<char> {
        match self {
            KeyCode::A => "a"@,
            KeyCode::S => "s"@,
            KeyCode::D => "d"@,
            KeyCode::F => "f"@,
            KeyCode::H => "h"@,
            KeyCode::G => "g"@,
            KeyCode::Z => "z"@,
            KeyCode::X => "x"@,
            KeyCode::C => "c"@,
            KeyCode::V => "v"@,
            KeyCode::B => "b"@,
            KeyCode::Q => "q"@,
            KeyCode::W => "w"@,
            KeyCode::E => "e"@,
            KeyCode::R => "r"@,
            KeyCode::Y => "y"@,
            KeyCode::T => "t"@,
            KeyCode::O => "o"@,
            KeyCode::U => "u"@,
            KeyCode::I => "i"@,
            KeyCode::P => "p"@,
            KeyCode::L => "l"@,
            KeyCode::J => "j"@,
            KeyCode::K => "k"@,
            KeyCode::N => "n"@,
            KeyCode::M => "m"@,
            KeyCode::Num1 => "1"@,
            KeyCode::Num2 => "2"@,
            KeyCode::Num3 => "3"@,
            KeyCode::Num4 => "4"@,
            KeyCode::Num5 => "5"@,
            KeyCode::Num6 => "6"@,
            KeyCode::Num7 => "7"@,
            KeyCode::Num8 => "8"@,
            KeyCode::Num9 => "9"@,
            KeyCode::Num0 => "0"@,
            KeyCode::Return => "return"@,
            KeyCode::Tab => "tab"@,
            KeyCode::Space => "space"@,
            KeyCode::Delete => "delete"@,
            KeyCode::Escape => "escape"@,
            KeyCode::Command => "command"@,
            KeyCode::Shift => "shift"@,
            KeyCode::CapsLock => "caps_lock"@,
            KeyCode::Option => "option"@,
            KeyCode::Control => "control"@,
            KeyCode::RightShift => "right_shift"@,
            KeyCode::RightOption => "right_option"@,
            KeyCode::RightControl => "right_control"@,
            KeyCode::Function => "function"@,
            KeyCode::Left => "left"@,
            KeyCode::Right => "right"@,
            KeyCode::Down => "down"@,
            KeyCode::Up => "up"@,
            KeyCode::F1 => "f1"@,
            KeyCode::F2 => "f2"@,
            KeyCode::F3 => "f3"@,
            KeyCode::F4 => "f4"@,
            KeyCode::F5 => "f5"@,
            KeyCode::F6 => "f6"@,
            KeyCode::F7 => "f7"@,
            KeyCode::F8 => "f8"@,
            KeyCode::F9 => "f9"@,
            KeyCode::F10 => "f10"@,
            KeyCode::F11 => "f11"@,
            KeyCode::F12 => "f12"@,
            KeyCode::Home => "home"@,
            KeyCode::End => "end"@,
            KeyCode::PageUp => "page_up"@,
            KeyCode::PageDown => "page_down"@,
            KeyCode::ForwardDelete => "forward_delete"@,
            KeyCode::Equal => "equal"@,
            KeyCode::Minus => "minus"@,
            KeyCode::LeftBracket => "left_bracket"@,
            KeyCode::RightBracket => "right_bracket"@,
            KeyCode::Quote => "quote"@,
            KeyCode::Semicolon => "semicolon"@,
            KeyCode::Backslash => "backslash"@,
            KeyCode::Comma => "comma"@,
            KeyCode::Slash => "slash"@,
            KeyCode::Period => "period"@,
            KeyCode::Grave => "grave"@,
        }
    }

    /// The name of a key as shown to a person.
    pub open spec fn display_name(self) -> Seq<char> {
        match self {
            KeyCode::A => "A"@,
            KeyCode::S => "S"@,
            KeyCode::D => "D"@,
            KeyCode::F => "F"@,
            KeyCode::H => "H"@,
            KeyCode::G => "G"@,
            KeyCode::Z => "Z"@,
            KeyCode::X => "X"@,
            KeyCode::C => "C"@,
            KeyCode::V => "V"@,
            KeyCode::B => "B"@,
            KeyCode::Q => "Q"@,
            KeyCode::W => "W"@,
            KeyCode::E => "E"@,
            KeyCode::R => "R"@,
            KeyCode::Y => "Y"@,
            KeyCode::T => "T"@,
            KeyCode::O => "O"@,
            KeyCode::U => "U"@,
            KeyCode::I => "I"@,
            KeyCode::P => "P"@,
            KeyCode::L => "L"@,
            KeyCode::J => "J"@,
            KeyCode::K => "K"@,
            KeyCode::N => "N"@,
            KeyCode::M => "M"@,
            KeyCode::Num1 => "1"@,
            KeyCode::Num2 => "2"@,
            KeyCode::Num3 => "3"@,
            KeyCode::Num4 => "4"@,
            KeyCode::Num5 => "5"@,
            KeyCode::Num6 => "6"@,
            KeyCode::Num7 => "7"@,
            KeyCode::Num8 => "8"@,
            KeyCode::Num9 => "9"@,
            KeyCode::Num0 => "0"@,
            KeyCode::Return => "Return"@,
            KeyCode::Tab => "Tab"@,
            KeyCode::Space => "Space"@,
            KeyCode::Delete => "Delete"@,
            KeyCode::Escape => "Escape"@,
            KeyCode::Command => "Command"@,
            KeyCode::Shift => "Shift"@,
            KeyCode::CapsLock => "Caps Lock"@,
            KeyCode::Option => "Option"@,
            KeyCode::Control => "Control"@,
            KeyCode::RightShift => "Right Shift"@,
            KeyCode::RightOption => "Right Option"@,
            KeyCode::RightControl => "Right Control"@,
            KeyCode::Function => "Function"@,
            KeyCode::Left => "Left Arrow"@,
            KeyCode::Right => "Right Arrow"@,
            KeyCode::Down => "Down Arrow"@,
            KeyCode::Up => "Up Arrow"@,
            KeyCode::F1 => "F1"@,
            KeyCode::F2 => "F2"@,
            KeyCode::F3 => "F3"@,
            KeyCode::F4 => "F4"@,
            KeyCode::F5 => "F5"@,
            KeyCode::F6 => "F6"@,
            KeyCode::F7 => "F7"@,
            KeyCode::F8 => "F8"@,
            KeyCode::F9 => "F9"@,
            KeyCode::F10 => "F10"@,
            KeyCode::F11 => "F11"@,
            KeyCode::F12 => "F12"@,
            KeyCode::Home => "Home"@,
            KeyCode::End => "End"@,
            KeyCode::PageUp => "Page Up"@,
            KeyCode::PageDown => "Page Down"@,
            KeyCode::ForwardDelete => "Forward Delete"@,
            KeyCode::Equal => "="@,
            KeyCode::Minus => "-"@,
            KeyCode::LeftBracket => "["@,
            KeyCode::RightBracket => "]"@,
            KeyCode::Quote => "'"@,
            KeyCode::Semicolon => ";"@,
            KeyCode::Backslash => "\\"@,
            KeyCode::Comma => ","@,
            KeyCode::Slash => "/"@,
            KeyCode::Period => "."@,
            KeyCode::Grave => "`"@,
        }
    }

    /// The value of a digit key, `None` for every other key.
    pub open spec fn digit(self) -> Option<u32> {
        match self {
            KeyCode::Num0 => Some(0u32),
            KeyCode::Num1 => Some(1u32),
            KeyCode::Num2 => Some(2u32),
            KeyCode::Num3 => Some(3u32),
            KeyCode::Num4 => Some(4u32),
            KeyCode::Num5 => Some(5u32),
            KeyCode::Num6 => Some(6u32),
            KeyCode::Num7 => Some(7u32),
            KeyCode::Num8 => Some(8u32),
            KeyCode::Num9 => Some(9u32),
            _ => None,
        }
    }

    /// The character that a letter, digit or space key types without
    /// modifiers, `None` for every other key.
    pub open spec fn character(self) -> Option<char> {
        match self {
            KeyCode::A => Some('a'),
            KeyCode::S => Some('s'),
            KeyCode::D => Some('d'),
            KeyCode::F => Some('f'),
            KeyCode::H => Some('h'),
            KeyCode::G => Some('g'),
            KeyCode::Z => Some('z'),
            KeyCode::X => Some('x'),
            KeyCode::C => Some('c'),
            KeyCode::V => Some('v'),
            KeyCode::B => Some('b'),
            KeyCode::Q => Some('q'),
            KeyCode::W => Some('w'),
            KeyCode::E => Some('e'),
            KeyCode::R => Some('r'),
            KeyCode::Y => Some('y'),
            KeyCode::T => Some('t'),
            KeyCode::O => Some('o'),
            KeyCode::U => Some('u'),
            KeyCode::I => Some('i'),
            KeyCode::P => Some('p'),
            KeyCode::L => Some('l'),
            KeyCode::J => Some('j'),
            KeyCode::K => Some('k'),
            KeyCode::N => Some('n'),
            KeyCode::M => Some('m'),
            KeyCode::Num1 => Some('1'),
            KeyCode::Num2 => Some('2'),
            KeyCode::Num3 => Some('3'),
            KeyCode::Num4 => Some('4'),
            KeyCode::Num5 => Some('5'),
            KeyCode::Num6 => Some('6'),
            KeyCode::Num7 => Some('7'),
            KeyCode::Num8 => Some('8'),
            KeyCode::Num9 => Some('9'),
            KeyCode::Num0 => Some('0'),
            KeyCode::Space => Some(' '),
            _ => None,
        }
    }

    /// The key with the given virtual key code, if there is one.
    pub fn from_raw(code: u16) -> (key: Option<KeyCode>)
        ensures
            key == KeyCode::of_raw(code),
    {
        match code {
            0x00 => Some(KeyCode::A),
            0x01 => Some(KeyCode::S),
            0x02 => Some(KeyCode::D),
            0x03 => Some(KeyCode::F),
            0x04 => Some(KeyCode::H),
            0x05 => Some(KeyCode::G),
            0x06 => Some(KeyCode::Z),
            0x07 => Some(KeyCode::X),
            0x08 => Some(KeyCode::C),
            0x09 => Some(KeyCode::V),
            0x0B => Some(KeyCode::B),
            0x0C => Some(KeyCode::Q),
            0x0D => Some(KeyCode::W),
            0x0E => Some(KeyCode::E),
            0x0F => Some(KeyCode::R),
            0x10 => Some(KeyCode::Y),
            0x11 => Some(KeyCode::T),
            0x1F => Some(KeyCode::O),
            0x20 => Some(KeyCode::U),
            0x22 => Some(KeyCode::I),
            0x23 => Some(KeyCode::P),
            0x25 => Some(KeyCode::L),
            0x26 => Some(KeyCode::J),
            0x28 => Some(KeyCode::K),
            0x2D => Some(KeyCode::N),
            0x2E => Some(KeyCode::M),
            0x12 => Some(KeyCode::Num1),
            0x13 => Some(KeyCode::Num2),
            0x14 => Some(KeyCode::Num3),
            0x15 => Some(KeyCode::Num4),
            0x17 => Some(KeyCode::Num5),
            0x16 => Some(KeyCode::Num6),
            0x1A => Some(KeyCode::Num7),
            0x1C => Some(KeyCode::Num8),
            0x19 => Some(KeyCode::Num9),
            0x1D => Some(KeyCode::Num0),
            0x24 => Some(KeyCode::Return),
            0x30 => Some(KeyCode::Tab),
            0x31 => Some(KeyCode::Space),
            0x33 => Some(KeyCode::Delete),
            0x35 => Some(KeyCode::Escape),
            0x37 => Some(KeyCode::Command),
            0x38 => Some(KeyCode::Shift),
            0x39 => Some(KeyCode::CapsLock),
            0x3A => Some(KeyCode::Option),
            0x3B => Some(KeyCode::Control),
            0x3C => Some(KeyCode::RightShift),
            0x3D => Some(KeyCode::RightOption),
            0x3E => Some(KeyCode::RightControl),
            0x3F => Some(KeyCode::Function),
            0x7B => Some(KeyCode::Left),
            0x7C => Some(KeyCode::Right),
            0x7D => Some(KeyCode::Down),
            0x7E => Some(KeyCode::Up),
            0x7A => Some(KeyCode::F1),
            0x78 => Some(KeyCode::F2),
            0x63 => Some(KeyCode::F3),
            0x76 => Some(KeyCode::F4),
            0x60 => Some(KeyCode::F5),
            0x61 => Some(KeyCode::F6),
            0x62 => Some(KeyCode::F7),
            0x64 => Some(KeyCode::F8),
            0x65 => Some(KeyCode::F9),
            0x6D => Some(KeyCode::F10),
            0x67 => Some(KeyCode::F11),
            0x6F => Some(KeyCode::F12),
            0x73 => Some(KeyCode::Home),
            0x77 => Some(KeyCode::End),
            0x74 => Some(KeyCode::PageUp),
            0x79 => Some(KeyCode::PageDown),
            0x75 => Some(KeyCode::ForwardDelete),
            0x18 => Some(KeyCode::Equal),
            0x1B => Some(KeyCode::Minus),
            0x21 => Some(KeyCode::LeftBracket),
            0x1E => Some(KeyCode::RightBracket),
            0x27 => Some(KeyCode::Quote),
            0x29 => Some(KeyCode::Semicolon),
            0x2A => Some(KeyCode::Backslash),
            0x2B => Some(KeyCode::Comma),
            0x2C => Some(KeyCode::Slash),
            0x2F => Some(KeyCode::Period),
            0x32 => Some(KeyCode::Grave),
            _ => None,
        }
    }

    /// The virtual key code of this key.
    pub fn as_raw(&self) -> (code: u16)
        ensures
            code == self.raw(),
    {
        match self {
            KeyCode::A => 0x00,
            KeyCode::S => 0x01,
            KeyCode::D => 0x02,
            KeyCode::F => 0x03,
            KeyCode::H => 0x04,
            KeyCode::G => 0x05,
            KeyCode::Z => 0x06,
            KeyCode::X => 0x07,
            KeyCode::C => 0x08,
            KeyCode::V => 0x09,
            KeyCode::B => 0x0B,
            KeyCode::Q => 0x0C,
            KeyCode::W => 0x0D,
            KeyCode::E => 0x0E,
            KeyCode::R => 0x0F,
            KeyCode::Y => 0x10,
            KeyCode::T => 0x11,
            KeyCode::O => 0x1F,
            KeyCode::U => 0x20,
            KeyCode::I => 0x22,
            KeyCode::P => 0x23,
            KeyCode::L => 0x25,
            KeyCode::J => 0x26,
            KeyCode::K => 0x28,
            KeyCode::N => 0x2D,
            KeyCode::M => 0x2E,
            KeyCode::Num1 => 0x12,
            KeyCode::Num2 => 0x13,
            KeyCode::Num3 => 0x14,
            KeyCode::Num4 => 0x15,
            KeyCode::Num5 => 0x17,
            KeyCode::Num6 => 0x16,
            KeyCode::Num7 => 0x1A,
            KeyCode::Num8 => 0x1C,
            KeyCode::Num9 => 0x19,
            KeyCode::Num0 => 0x1D,
            KeyCode::Return => 0x24,
            KeyCode::Tab => 0x30,
            KeyCode::Space => 0x31,
            KeyCode::Delete => 0x33,
            KeyCode::Escape => 0x35,
            KeyCode::Command => 0x37,
            KeyCode::Shift => 0x38,
            KeyCode::CapsLock => 0x39,
            KeyCode::Option => 0x3A,
            KeyCode::Control => 0x3B,
            KeyCode::RightShift => 0x3C,
            KeyCode::RightOption => 0x3D,
            KeyCode::RightControl => 0x3E,
            KeyCode::Function => 0x3F,
            KeyCode::Left => 0x7B,
            KeyCode::Right => 0x7C,
            KeyCode::Down => 0x7D,
            KeyCode::Up => 0x7E,
            KeyCode::F1 => 0x7A,
            KeyCode::F2 => 0x78,
            KeyCode::F3 => 0x63,
            KeyCode::F4 => 0x76,
            KeyCode::F5 => 0x60,
            KeyCode::F6 => 0x61,
            KeyCode::F7 => 0x62,
            KeyCode::F8 => 0x64,
            KeyCode::F9 => 0x65,
            KeyCode::F10 => 0x6D,
            KeyCode::F11 => 0x67,
            KeyCode::F12 => 0x6F,
            KeyCode::Home => 0x73,
            KeyCode::End => 0x77,
            KeyCode::PageUp => 0x74,
            KeyCode::PageDown => 0x79,
            KeyCode::ForwardDelete => 0x75,
            KeyCode::Equal => 0x18,
            KeyCode::Minus => 0x1B,
            KeyCode::LeftBracket => 0x21,
            KeyCode::RightBracket => 0x1E,
            KeyCode::Quote => 0x27,
            KeyCode::Semicolon => 0x29,
            KeyCode::Backslash => 0x2A,
            KeyCode::Comma => 0x2B,
            KeyCode::Slash => 0x2C,
            KeyCode::Period => 0x2F,
            KeyCode::Grave => 0x32,
        }
    }

    /// The settings name of this key.
    pub fn to_name(&self) -> (name: &'static str)
        ensures
            name@ == self.name(),
    {
        match self {
            KeyCode::A => "a",
            KeyCode::S => "s",
            KeyCode::D => "d",
            KeyCode::F => "f",
            KeyCode::H => "h",
            KeyCode::G => "g",
            KeyCode::Z => "z",
            KeyCode::X => "x",
            KeyCode::C => "c",
            KeyCode::V => "v",
            KeyCode::B => "b",
            KeyCode::Q => "q",
            KeyCode::W => "w",
            KeyCode::E => "e",
            KeyCode::R => "r",
            KeyCode::Y => "y",
            KeyCode::T => "t",
            KeyCode::O => "o",
            KeyCode::U => "u",
            KeyCode::I => "i",
            KeyCode::P => "p",
            KeyCode::L => "l",
            KeyCode::J => "j",
            KeyCode::K => "k",
            KeyCode::N => "n",
            KeyCode::M => "m",
            KeyCode::Num1 => "1",
            KeyCode::Num2 => "2",
            KeyCode::Num3 => "3",
            KeyCode::Num4 => "4",
            KeyCode::Num5 => "5",
            KeyCode::Num6 => "6",
            KeyCode::Num7 => "7",
            KeyCode::Num8 => "8",
            KeyCode::Num9 => "9",
            KeyCode::Num0 => "0",
            KeyCode::Return => "return",
            KeyCode::Tab => "tab",
            KeyCode::Space => "space",
            KeyCode::Delete => "delete",
            KeyCode::Escape => "escape",
            KeyCode::Command => "command",
            KeyCode::Shift => "shift",
            KeyCode::CapsLock => "caps_lock",
            KeyCode::Option => "option",
            KeyCode::Control => "control",
            KeyCode::RightShift => "right_shift",
            KeyCode::RightOption => "right_option",
            KeyCode::RightControl => "right_control",
            KeyCode::Function => "function",
            KeyCode::Left => "left",
            KeyCode::Right => "right",
            KeyCode::Down => "down",
            KeyCode::Up => "up",
            KeyCode::F1 => "f1",
            KeyCode::F2 => "f2",
            KeyCode::F3 => "f3",
            KeyCode::F4 => "f4",
            KeyCode::F5 => "f5",
            KeyCode::F6 => "f6",
            KeyCode::F7 => "f7",
            KeyCode::F8 => "f8",
            KeyCode::F9 => "f9",
            KeyCode::F10 => "f10",
            KeyCode::F11 => "f11",
            KeyCode::F12 => "f12",
            KeyCode::Home => "home",
            KeyCode::End => "end",
            KeyCode::PageUp => "page_up",
            KeyCode::PageDown => "page_down",
            KeyCode::ForwardDelete => "forward_delete",
            KeyCode::Equal => "equal",
            KeyCode::Minus => "minus",
            KeyCode::LeftBracket => "left_bracket",
            KeyCode::RightBracket => "right_bracket",
            KeyCode::Quote => "quote",
            KeyCode::Semicolon => "semicolon",
            KeyCode::Backslash => "backslash",
            KeyCode::Comma => "comma",
            KeyCode::Slash => "slash",
            KeyCode::Period => "period",
            KeyCode::Grave => "grave",
        }
    }

    /// The name of this key as shown to a person.
    pub fn to_display_name(&self) -> (name: &'static str)
        ensures
            name@ == self.display_name(),
    {
        match self {
            KeyCode::A => "A",
            KeyCode::S => "S",
            KeyCode::D => "D",
            KeyCode::F => "F",
            KeyCode::H => "H",
            KeyCode::G => "G",
            KeyCode::Z => "Z",
            KeyCode::X => "X",
            KeyCode::C => "C",
            KeyCode::V => "V",
            KeyCode::B => "B",
            KeyCode::Q => "Q",
            KeyCode::W => "W",
            KeyCode::E => "E",
            KeyCode::R => "R",
            KeyCode::Y => "Y",
            KeyCode::T => "T",
            KeyCode::O => "O",
            KeyCode::U => "U",
            KeyCode::I => "I",
            KeyCode::P => "P",
            KeyCode::L => "L",
            KeyCode::J => "J",
            KeyCode::K => "K",
            KeyCode::N => "N",
            KeyCode::M => "M",
            KeyCode::Num1 => "1",
            KeyCode::Num2 => "2",
            KeyCode::Num3 => "3",
            KeyCode::Num4 => "4",
            KeyCode::Num5 => "5",
            KeyCode::Num6 => "6",
            KeyCode::Num7 => "7",
            KeyCode::Num8 => "8",
            KeyCode::Num9 => "9",
            KeyCode::Num0 => "0",
            KeyCode::Return => "Return",
            KeyCode::Tab => "Tab",
            KeyCode::Space => "Space",
            KeyCode::Delete => "Delete",
            KeyCode::Escape => "Escape",
            KeyCode::Command => "Command",
            KeyCode::Shift => "Shift",
            KeyCode::CapsLock => "Caps Lock",
            KeyCode::Option => "Option",
            KeyCode::Control => "Control",
            KeyCode::RightShift => "Right Shift",
            KeyCode::RightOption => "Right Option",
            KeyCode::RightControl => "Right Control",
            KeyCode::Function => "Function",
            KeyCode::Left => "Left Arrow",
            KeyCode::Right => "Right Arrow",
            KeyCode::Down => "Down Arrow",
            KeyCode::Up => "Up Arrow",
            KeyCode::F1 => "F1",
            KeyCode::F2 => "F2",
            KeyCode::F3 => "F3",
            KeyCode::F4 => "F4",
            KeyCode::F5 => "F5",
            KeyCode::F6 => "F6",
            KeyCode::F7 => "F7",
            KeyCode::F8 => "F8",
            KeyCode::F9 => "F9",
            KeyCode::F10 => "F10",
            KeyCode::F11 => "F11",
            KeyCode::F12 => "F12",
            KeyCode::Home => "Home",
            KeyCode::End => "End",
            KeyCode::PageUp => "Page Up",
            KeyCode::PageDown => "Page Down",
            KeyCode::ForwardDelete => "Forward Delete",
            KeyCode::Equal => "=",
            KeyCode::Minus => "-",
            KeyCode::LeftBracket => "[",
            KeyCode::RightBracket => "]",
            KeyCode::Quote => "'",
            KeyCode::Semicolon => ";",
            KeyCode::Backslash => "\\",
            KeyCode::Comma => ",",
            KeyCode::Slash => "/",
            KeyCode::Period => ".",
            KeyCode::Grave => "`",
        }
    }

    /// The key whose settings name is exactly `name`, if there is one.
    pub fn from_exact_name(name: &str) -> (key: Option<KeyCode>)
        ensures
            match key {
                Some(k) => k.name() == name@,
                None => forall|k: KeyCode| (#[trigger] k.name()) != name@,
            },
    {
        if str_eq(name, "a") {
            return Some(KeyCode::A);
        }
        if str_eq(name, "s") {
            return Some(KeyCode::S);
        }
        if str_eq(name, "d") {
            return Some(KeyCode::D);
        }
        if str_eq(name, "f") {
            return Some(KeyCode::F);
        }
        if str_eq(name, "h") {
            return Some(KeyCode::H);
        }
        if str_eq(name, "g") {
            return Some(KeyCode::G);
        }
        if str_eq(name, "z") {
            return Some(KeyCode::Z);
        }
        if str_eq(name, "x") {
            return Some(KeyCode::X);
        }
        if str_eq(name, "c") {
            return Some(KeyCode::C);
        }
        if str_eq(name, "v") {
            return Some(KeyCode::V);
        }
        if str_eq(name, "b") {
            return Some(KeyCode::B);
        }
        if str_eq(name, "q") {
            return Some(KeyCode::Q);
        }
        if str_eq(name, "w") {
            return Some(KeyCode::W);
        }
        if str_eq(name, "e") {
            return Some(KeyCode::E);
        }
        if str_eq(name, "r") {
            return Some(KeyCode::R);
        }
        if str_eq(name, "y") {
            return Some(KeyCode::Y);
        }
        if str_eq(name, "t") {
            return Some(KeyCode::T);
        }
        if str_eq(name, "o") {
            return Some(KeyCode::O);
        }
        if str_eq(name, "u") {
            return Some(KeyCode::U);
        }
        if str_eq(name, "i") {
            return Some(KeyCode::I);
        }
        if str_eq(name, "p") {
            return Some(KeyCode::P);
        }
        if str_eq(name, "l") {
            return Some(KeyCode::L);
        }
        if str_eq(name, "j") {
            return Some(KeyCode::J);
        }
        if str_eq(name, "k") {
            return Some(KeyCode::K);
        }
        if str_eq(name, "n") {
            return Some(KeyCode::N);
        }
        if str_eq(name, "m") {
            return Some(KeyCode::M);
        }
        if str_eq(name, "1") {
            return Some(KeyCode::Num1);
        }
        if str_eq(name, "2") {
            return Some(KeyCode::Num2);
        }
        if str_eq(name, "3") {
            return Some(KeyCode::Num3);
        }
        if str_eq(name, "4") {
            return Some(KeyCode::Num4);
        }
        if str_eq(name, "5") {
            return Some(KeyCode::Num5);
        }
        if str_eq(name, "6") {
            return Some(KeyCode::Num6);
        }
        if str_eq(name, "7") {
            return Some(KeyCode::Num7);
        }
        if str_eq(name, "8") {
            return Some(KeyCode::Num8);
        }
        if str_eq(name, "9") {
            return Some(KeyCode::Num9);
        }
        if str_eq(name, "0") {
            return Some(KeyCode::Num0);
        }
        if str_eq(name, "return") {
            return Some(KeyCode::Return);
        }
        if str_eq(name, "tab") {
            return Some(KeyCode::Tab);
        }
        if str_eq(name, "space") {
            return Some(KeyCode::Space);
        }
        if str_eq(name, "delete") {
            return Some(KeyCode::Delete);
        }
        if str_eq(name, "escape") {
            return Some(KeyCode::Escape);
        }
        if str_eq(name, "command") {
            return Some(KeyCode::Command);
        }
        if str_eq(name, "shift") {
            return Some(KeyCode::Shift);
        }
        if str_eq(name, "caps_lock") {
            return Some(KeyCode::CapsLock);
        }
        if str_eq(name, "option") {
            return Some(KeyCode::Option);
        }
        if str_eq(name, "control") {
            return Some(KeyCode::Control);
        }
        if str_eq(name, "right_shift") {
            return Some(KeyCode::RightShift);
        }
        if str_eq(name, "right_option") {
            return Some(KeyCode::RightOption);
        }
        if str_eq(name, "right_control") {
            return Some(KeyCode::RightControl);
        }
        if str_eq(name, "function") {
            return Some(KeyCode::Function);
        }
        if str_eq(name, "left") {
            return Some(KeyCode::Left);
        }
        if str_eq(name, "right") {
            return Some(KeyCode::Right);
        }
        if str_eq(name, "down") {
            return Some(KeyCode::Down);
        }
        if str_eq(name, "up") {
            return Some(KeyCode::Up);
        }
        if str_eq(name, "f1") {
            return Some(KeyCode::F1);
        }
        if str_eq(name, "f2") {
            return Some(KeyCode::F2);
        }
        if str_eq(name, "f3") {
            return Some(KeyCode::F3);
        }
        if str_eq(name, "f4") {
            return Some(KeyCode::F4);
        }
        if str_eq(name, "f5") {
            return Some(KeyCode::F5);
        }
        if str_eq(name, "f6") {
            return Some(KeyCode::F6);
        }
        if str_eq(name, "f7") {
            return Some(KeyCode::F7);
        }
        if str_eq(name, "f8") {
            return Some(KeyCode::F8);
        }
        if str_eq(name, "f9") {
            return Some(KeyCode::F9);
        }
        if str_eq(name, "f10") {
            return Some(KeyCode::F10);
        }
        if str_eq(name, "f11") {
            return Some(KeyCode::F11);
        }
        if str_eq(name, "f12") {
            return Some(KeyCode::F12);
        }
        if str_eq(name, "home") {
            return Some(KeyCode::Home);
        }
        if str_eq(name, "end") {
            return Some(KeyCode::End);
        }
        if str_eq(name, "page_up") {
            return Some(KeyCode::PageUp);
        }
        if str_eq(name, "page_down") {
            return Some(KeyCode::PageDown);
        }
        if str_eq(name, "forward_delete") {
            return Some(KeyCode::ForwardDelete);
        }
        if str_eq(name, "equal") {
            return Some(KeyCode::Equal);
        }
        if str_eq(name, "minus") {
            return Some(KeyCode::Minus);
        }
        if str_eq(name, "left_bracket") {
            return Some(KeyCode::LeftBracket);
        }
        if str_eq(name, "right_bracket") {
            return Some(KeyCode::RightBracket);
        }
        if str_eq(name, "quote") {
            return Some(KeyCode::Quote);
        }
        if str_eq(name, "semicolon") {
            return Some(KeyCode::Semicolon);
        }
        if str_eq(name, "backslash") {
            return Some(KeyCode::Backslash);
        }
        if str_eq(name, "comma") {
            return Some(KeyCode::Comma);
        }
        if str_eq(name, "slash") {
            return Some(KeyCode::Slash);
        }
        if str_eq(name, "period") {
            return Some(KeyCode::Period);
        }
        if str_eq(name, "grave") {
            return Some(KeyCode::Grave);
        }
        None
    }

    /// The key whose settings name is `name`, letter case ignored: the name
    /// is lowercased and then looked up exactly.
    pub fn from_name(name: &str) -> (key: Option<KeyCode>)
        ensures
            match key {
                Some(k) => k.name() == lowercased(name@),
                None => forall|k: KeyCode| (#[trigger] k.name()) != lowercased(name@),
            },
    {
        let lowered = lowercase(name);
        KeyCode::from_exact_name(lowered.as_str())
    }

    /// The value of a digit key.
    pub fn to_digit(self) -> (digit: Option<u32>)
        ensures
            digit == self.digit(),
    {
        match self {
            KeyCode::Num0 => Some(0),
            KeyCode::Num1 => Some(1),
            KeyCode::Num2 => Some(2),
            KeyCode::Num3 => Some(3),
            KeyCode::Num4 => Some(4),
            KeyCode::Num5 => Some(5),
            KeyCode::Num6 => Some(6),
            KeyCode::Num7 => Some(7),
            KeyCode::Num8 => Some(8),
            KeyCode::Num9 => Some(9),
            _ => None,
        }
    }

    /// The character that this key types without modifiers.
    pub fn to_char(self) -> (c: Option<char>)
        ensures
            c == self.character(),
    {
        match self {
            KeyCode::A => Some('a'),
            KeyCode::S => Some('s'),
            KeyCode::D => Some('d'),
            KeyCode::F => Some('f'),
            KeyCode::H => Some('h'),
            KeyCode::G => Some('g'),
            KeyCode::Z => Some('z'),
            KeyCode::X => Some('x'),
            KeyCode::C => Some('c'),
            KeyCode::V => Some('v'),
            KeyCode::B => Some('b'),
            KeyCode::Q => Some('q'),
            KeyCode::W => Some('w'),
            KeyCode::E => Some('e'),
            KeyCode::R => Some('r'),
            KeyCode::Y => Some('y'),
            KeyCode::T => Some('t'),
            KeyCode::O => Some('o'),
            KeyCode::U => Some('u'),
            KeyCode::I => Some('i'),
            KeyCode::P => Some('p'),
            KeyCode::L => Some('l'),
            KeyCode::J => Some('j'),
            KeyCode::K => Some('k'),
            KeyCode::N => Some('n'),
            KeyCode::M => Some('m'),
            KeyCode::Num1 => Some('1'),
            KeyCode::Num2 => Some('2'),
            KeyCode::Num3 => Some('3'),
            KeyCode::Num4 => Some('4'),
            KeyCode::Num5 => Some('5'),
            KeyCode::Num6 => Some('6'),
            KeyCode::Num7 => Some('7'),
            KeyCode::Num8 => Some('8'),
            KeyCode::Num9 => Some('9'),
            KeyCode::Num0 => Some('0'),
            KeyCode::Space => Some(' '),
            _ => None,
        }
    }
}

/// The bit of a flag word that stands for the shift key.
pub const SHIFT_MASK: u64 = 0x0002_0000;

/// The bit of a flag word that stands for the control key.
pub const CONTROL_MASK: u64 = 0x0004_0000;

/// The bit of a flag word that stands for the option key.
pub const OPTION_MASK: u64 = 0x0008_0000;

/// The bit of a flag word that stands for the command key.
pub const COMMAND_MASK: u64 = 0x0010_0000;

/// The bit of a flag word that stands for caps lock.
pub const CAPS_LOCK_MASK: u64 = 0x0001_0000;

/// The modifier keys held with a key.
#[derive(Debug, Clone, Copy, PartialEq, Eq, Structural)]
pub struct Modifiers {
    pub shift: bool,
    pub control: bool,
    pub option: bool,
    pub command: bool,
    pub caps_lock: bool,
}

impl Modifiers {
    /// No modifier held.
    pub open spec fn none() -> Modifiers {
        Modifiers { shift: false, control: false, option: false, command: false, caps_lock: false }
    }

    /// The modifiers whose bits are set in a flag word; other bits are
    /// ignored.
    pub open spec fn of_flags(flags: u64) -> Modifiers {
        Modifiers {
            shift: flags & SHIFT_MASK != 0,
            control: flags & CONTROL_MASK != 0,
            option: flags & OPTION_MASK != 0,
            command: flags & COMMAND_MASK != 0,
            caps_lock: flags & CAPS_LOCK_MASK != 0,
        }
    }

    /// The flag word in which exactly the bits of the held modifiers are set.
    pub open spec fn flags(self) -> u64 {
        (if self.shift { SHIFT_MASK } else { 0 })
            | (if self.control { CONTROL_MASK } else { 0 })
            | (if self.option { OPTION_MASK } else { 0 })
            | (if self.command { COMMAND_MASK } else { 0 })
            | (if self.caps_lock { CAPS_LOCK_MASK } else { 0 })
    }

    /// Decodes a flag word.
    pub fn from_cg_flags(flags: u64) -> (modifiers: Modifiers)
        ensures
            modifiers == Modifiers::of_flags(flags),
    {
        Modifiers {
            shift: flags & SHIFT_MASK != 0,
            control: flags & CONTROL_MASK != 0,
            option: flags & OPTION_MASK != 0,
            command: flags & COMMAND_MASK != 0,
            caps_lock: flags & CAPS_LOCK_MASK != 0,
        }
    }

    /// Encodes the held modifiers as a flag word.
    pub fn to_cg_flags(self) -> (flags: u64)
        ensures
            flags == self.flags(),
    {
        let shift: u64 = if self.shift { SHIFT_MASK } else { 0 };
        let control: u64 = if self.control { CONTROL_MASK } else { 0 };
        let option: u64 = if self.option { OPTION_MASK } else { 0 };
        let command: u64 = if self.command { COMMAND_MASK } else { 0 };
        let caps_lock: u64 = if self.caps_lock { CAPS_LOCK_MASK } else { 0 };
        shift | control | option | command | caps_lock
    }
}

impl Default for Modifiers {
    fn default() -> (modifiers: Self)
        ensures
            modifiers == Modifiers::none(),
    {
        Modifiers { shift: false, control: false, option: false, command: false, caps_lock: false }
    }
}

/// One transition of a physical key: which key, with which modifiers, and
/// whether it went down or up.
#[derive(Debug, Clone, Copy, PartialEq, Eq, Structural)]
pub struct KeyEvent {
    pub code: u16,
    pub modifiers: Modifiers,
    pub is_key_down: bool,
}

impl KeyEvent {
    /// The key of an event, `None` where its code belongs to no known key.
    pub open spec fn key(self) -> Option<KeyCode> {
        KeyCode::of_raw(self.code)
    }

    /// The key of this event, if its code is a known one.
    pub fn keycode(&self) -> (key: Option<KeyCode>)
        ensures
            key == self.key(),
    {
        KeyCode::from_raw(self.code)
    }
}

/// Looking a key up by its own code finds that key, and a code finds only
/// the key that has it: `of_raw` is the inverse of `raw`.
pub proof fn lemma_raw_round_trip(key: KeyCode, code: u16)
    ensures
        KeyCode::of_raw(key.raw()) == Some(key),
        KeyCode::of_raw(code) == Some(key) ==> key.raw() == code,
{
}

impl KeyCode {
    /// What tells the settings names apart: the length of a name and its
    /// characters at the positions 0, 1, 2 and 6, with a blank where the
    /// name is shorter.
    pub open spec fn name_marks(self) -> (nat, char, char, char, char) {
        match self {
            KeyCode::A => (1, 'a', ' ', ' ', ' '),
            KeyCode::S => (1, 's', ' ', ' ', ' '),
            KeyCode::D => (1, 'd', ' ', ' ', ' '),
            KeyCode::F => (1, 'f', ' ', ' ', ' '),
            KeyCode::H => (1, 'h', ' ', ' ', ' '),
            KeyCode::G => (1, 'g', ' ', ' ', ' '),
            KeyCode::Z => (1, 'z', ' ', ' ', ' '),
            KeyCode::X => (1, 'x', ' ', ' ', ' '),
            KeyCode::C => (1, 'c', ' ', ' ', ' '),
            KeyCode::V => (1, 'v', ' ', ' ', ' '),
            KeyCode::B => (1, 'b', ' ', ' ', ' '),
            KeyCode::Q => (1, 'q', ' ', ' ', ' '),
            KeyCode::W => (1, 'w', ' ', ' ', ' '),
            KeyCode::E => (1, 'e', ' ', ' ', ' '),
            KeyCode::R => (1, 'r', ' ', ' ', ' '),
            KeyCode::Y => (1, 'y', ' ', ' ', ' '),
            KeyCode::T => (1, 't', ' ', ' ', ' '),
            KeyCode::O => (1, 'o', ' ', ' ', ' '),
            KeyCode::U => (1, 'u', ' ', ' ', ' '),
            KeyCode::I => (1, 'i', ' ', ' ', ' '),
            KeyCode::P => (1, 'p', ' ', ' ', ' '),
            KeyCode::L => (1, 'l', ' ', ' ', ' '),
            KeyCode::J => (1, 'j', ' ', ' ', ' '),
            KeyCode::K => (1, 'k', ' ', ' ', ' '),
            KeyCode::N => (1, 'n', ' ', ' ', ' '),
            KeyCode::M => (1, 'm', ' ', ' ', ' '),
            KeyCode::Num1 => (1, '1', ' ', ' ', ' '),
            KeyCode::Num2 => (1, '2', ' ', ' ', ' '),
            KeyCode::Num3 => (1, '3', ' ', ' ', ' '),
            KeyCode::Num4 => (1, '4', ' ', ' ', ' '),
            KeyCode::Num5 => (1, '5', ' ', ' ', ' '),
            KeyCode::Num6 => (1, '6', ' ', ' ', ' '),
            KeyCode::Num7 => (1, '7', ' ', ' ', ' '),
            KeyCode::Num8 => (1, '8', ' ', ' ', ' '),
            KeyCode::Num9 => (1, '9', ' ', ' ', ' '),
            KeyCode::Num0 => (1, '0', ' ', ' ', ' '),
            KeyCode::Return => (6, 'r', 'e', 't', ' '),
            KeyCode::Tab => (3, 't', 'a', 'b', ' '),
            KeyCode::Space => (5, 's', 'p', 'a', ' '),
            KeyCode::Delete => (6, 'd', 'e', 'l', ' '),
            KeyCode::Escape => (6, 'e', 's', 'c', ' '),
            KeyCode::Command => (7, 'c', 'o', 'm', 'd'),
            KeyCode::Shift => (5, 's', 'h', 'i', ' '),
            KeyCode::CapsLock => (9, 'c', 'a', 'p', 'o'),
            KeyCode::Option => (6, 'o', 'p', 't', ' '),
            KeyCode::Control => (7, 'c', 'o', 'n', 'l'),
            KeyCode::RightShift => (11, 'r', 'i', 'g', 's'),
            KeyCode::RightOption => (12, 'r', 'i', 'g', 'o'),
            KeyCode::RightControl => (13, 'r', 'i', 'g', 'c'),
            KeyCode::Function => (8, 'f', 'u', 'n', 'o'),
            KeyCode::Left => (4, 'l', 'e', 'f', ' '),
            KeyCode::Right => (5, 'r', 'i', 'g', ' '),
            KeyCode::Down => (4, 'd', 'o', 'w', ' '),
            KeyCode::Up => (2, 'u', 'p', ' ', ' '),
            KeyCode::F1 => (2, 'f', '1', ' ', ' '),
            KeyCode::F2 => (2, 'f', '2', ' ', ' '),
            KeyCode::F3 => (2, 'f', '3', ' ', ' '),
            KeyCode::F4 => (2, 'f', '4', ' ', ' '),
            KeyCode::F5 => (2, 'f', '5', ' ', ' '),
            KeyCode::F6 => (2, 'f', '6', ' ', ' '),
            KeyCode::F7 => (2, 'f', '7', ' ', ' '),
            KeyCode::F8 => (2, 'f', '8', ' ', ' '),
            KeyCode::F9 => (2, 'f', '9', ' ', ' '),
            KeyCode::F10 => (3, 'f', '1', '0', ' '),
            KeyCode::F11 => (3, 'f', '1', '1', ' '),
            KeyCode::F12 => (3, 'f', '1', '2', ' '),
            KeyCode::Home => (4, 'h', 'o', 'm', ' '),
            KeyCode::End => (3, 'e', 'n', 'd', ' '),
            KeyCode::PageUp => (7, 'p', 'a', 'g', 'p'),
            KeyCode::PageDown => (9, 'p', 'a', 'g', 'o'),
            KeyCode::ForwardDelete => (14, 'f', 'o', 'r', 'd'),
            KeyCode::Equal => (5, 'e', 'q', 'u', ' '),
            KeyCode::Minus => (5, 'm', 'i', 'n', ' '),
            KeyCode::LeftBracket => (12, 'l', 'e', 'f', 'r'),
            KeyCode::RightBracket => (13, 'r', 'i', 'g', 'b'),
            KeyCode::Quote => (5, 'q', 'u', 'o', ' '),
            KeyCode::Semicolon => (9, 's', 'e', 'm', 'l'),
            KeyCode::Backslash => (9, 'b', 'a', 'c', 'a'),
            KeyCode::Comma => (5, 'c', 'o', 'm', ' '),
            KeyCode::Slash => (5, 's', 'l', 'a', ' '),
            KeyCode::Period => (6, 'p', 'e', 'r', ' '),
            KeyCode::Grave => (5, 'g', 'r', 'a', ' '),
        }
    }
}

/// The character of a name at a position, a blank where the name is
/// shorter.
pub open spec fn char_or_blank(name: Seq<char>, at: int) -> char {
    if 0 <= at < name.len() {
        name[at]
    } else {
        ' '
    }
}

/// The marks of a key are those of its settings name.
pub proof fn lemma_name_marks(key: KeyCode)
    ensures
        key.name_marks() == (
            key.name().len(),
            char_or_blank(key.name(), 0),
            char_or_blank(key.name(), 1),
            char_or_blank(key.name(), 2),
            char_or_blank(key.name(), 6),
        ),
{
    match key {
        KeyCode::A => {
            reveal_strlit("a");
        },
        KeyCode::S => {
            reveal_strlit("s");
        },
        KeyCode::D => {
            reveal_strlit("d");
        },
        KeyCode::F => {
            reveal_strlit("f");
        },
        KeyCode::H => {
            reveal_strlit("h");
        },
        KeyCode::G => {
            reveal_strlit("g");
        },
        KeyCode::Z => {
            reveal_strlit("z");
        },
        KeyCode::X => {
            reveal_strlit("x");
        },
        KeyCode::C => {
            reveal_strlit("c");
        },
        KeyCode::V => {
            reveal_strlit("v");
        },
        KeyCode::B => {
            reveal_strlit("b");
        },
        KeyCode::Q => {
            reveal_strlit("q");
        },
        KeyCode::W => {
            reveal_strlit("w");
        },
        KeyCode::E => {
            reveal_strlit("e");
        },
        KeyCode::R => {
            reveal_strlit("r");
        },
        KeyCode::Y => {
            reveal_strlit("y");
        },
        KeyCode::T => {
            reveal_strlit("t");
        },
        KeyCode::O => {
            reveal_strlit("o");
        },
        KeyCode::U => {
            reveal_strlit("u");
        },
        KeyCode::I => {
            reveal_strlit("i");
        },
        KeyCode::P => {
            reveal_strlit("p");
        },
        KeyCode::L => {
            reveal_strlit("l");
        },
        KeyCode::J => {
            reveal_strlit("j");
        },
        KeyCode::K => {
            reveal_strlit("k");
        },
        KeyCode::N => {
            reveal_strlit("n");
        },
        KeyCode::M => {
            reveal_strlit("m");
        },
        KeyCode::Num1 => {
            reveal_strlit("1");
        },
        KeyCode::Num2 => {
            reveal_strlit("2");
        },
        KeyCode::Num3 => {
            reveal_strlit("3");
        },
        KeyCode::Num4 => {
            reveal_strlit("4");
        },
        KeyCode::Num5 => {
            reveal_strlit("5");
        },
        KeyCode::Num6 => {
            reveal_strlit("6");
        },
        KeyCode::Num7 => {
            reveal_strlit("7");
        },
        KeyCode::Num8 => {
            reveal_strlit("8");
        },
        KeyCode::Num9 => {
            reveal_strlit("9");
        },
        KeyCode::Num0 => {
            reveal_strlit("0");
        },
        KeyCode::Return => {
            reveal_strlit("return");
        },
        KeyCode::Tab => {
            reveal_strlit("tab");
        },
        KeyCode::Space => {
            reveal_strlit("space");
        },
        KeyCode::Delete => {
            reveal_strlit("delete");
        },
        KeyCode::Escape => {
            reveal_strlit("escape");
        },
        KeyCode::Command => {
            reveal_strlit("command");
        },
        KeyCode::Shift => {
            reveal_strlit("shift");
        },
        KeyCode::CapsLock => {
            reveal_strlit("caps_lock");
        },
        KeyCode::Option => {
            reveal_strlit("option");
        },
        KeyCode::Control => {
            reveal_strlit("control");
        },
        KeyCode::RightShift => {
            reveal_strlit("right_shift");
        },
        KeyCode::RightOption => {
            reveal_strlit("right_option");
        },
        KeyCode::RightControl => {
            reveal_strlit("right_control");
        },
        KeyCode::Function => {
            reveal_strlit("function");
        },
        KeyCode::Left => {
            reveal_strlit("left");
        },
        KeyCode::Right => {
            reveal_strlit("right");
        },
        KeyCode::Down => {
            reveal_strlit("down");
        },
        KeyCode::Up => {
            reveal_strlit("up");
        },
        KeyCode::F1 => {
            reveal_strlit("f1");
        },
        KeyCode::F2 => {
            reveal_strlit("f2");
        },
        KeyCode::F3 => {
            reveal_strlit("f3");
        },
        KeyCode::F4 => {
            reveal_strlit("f4");
        },
        KeyCode::F5 => {
            reveal_strlit("f5");
        },
        KeyCode::F6 => {
            reveal_strlit("f6");
        },
        KeyCode::F7 => {
            reveal_strlit("f7");
        },
        KeyCode::F8 => {
            reveal_strlit("f8");
        },
        KeyCode::F9 => {
            reveal_strlit("f9");
        },
        KeyCode::F10 => {
            reveal_strlit("f10");
        },
        KeyCode::F11 => {
            reveal_strlit("f11");
        },
        KeyCode::F12 => {
            reveal_strlit("f12");
        },
        KeyCode::Home => {
            reveal_strlit("home");
        },
        KeyCode::End => {
            reveal_strlit("end");
        },
        KeyCode::PageUp => {
            reveal_strlit("page_up");
        },
        KeyCode::PageDown => {
            reveal_strlit("page_down");
        },
        KeyCode::ForwardDelete => {
            reveal_strlit("forward_delete");
        },
        KeyCode::Equal => {
            reveal_strlit("equal");
        },
        KeyCode::Minus => {
            reveal_strlit("minus");
        },
        KeyCode::LeftBracket => {
            reveal_strlit("left_bracket");
        },
        KeyCode::RightBracket => {
            reveal_strlit("right_bracket");
        },
        KeyCode::Quote => {
            reveal_strlit("quote");
        },
        KeyCode::Semicolon => {
            reveal_strlit("semicolon");
        },
        KeyCode::Backslash => {
            reveal_strlit("backslash");
        },
        KeyCode::Comma => {
            reveal_strlit("comma");
        },
        KeyCode::Slash => {
            reveal_strlit("slash");
        },
        KeyCode::Period => {
            reveal_strlit("period");
        },
        KeyCode::Grave => {
            reveal_strlit("grave");
        },
    }
}

/// No two keys share a settings name.
pub proof fn lemma_names_are_distinct(a: KeyCode, b: KeyCode)
    requires
        a.name() == b.name(),
    ensures
        a == b,
{
    lemma_name_marks(a);
    lemma_name_marks(b);
}

/// Looking a key up by its own settings name finds that key: an answer as
/// `from_exact_name` gives it for the name of `key` is `key`.
pub proof fn lemma_name_round_trip(key: KeyCode, found: Option<KeyCode>)
    requires
        match found {
            Some(k) => k.name() == key.name(),
            None => forall|k: KeyCode| (#[trigger] k.name()) != key.name(),
        },
    ensures
        found == Some(key),
{
    match found {
        Some(k) => {
            lemma_names_are_distinct(k, key);
        },
        None => {
            let name = key.name();
            assert(name == key.name());
        },
    }
}

/// Decoding the flag word of a modifier set gives that set back.
pub proof fn lemma_flags_round_trip(m: Modifiers)
    ensures
        Modifiers::of_flags(m.flags()) == m,
{
    let s: u64 = if m.shift { SHIFT_MASK } else { 0 };
    let c: u64 = if m.control { CONTROL_MASK } else { 0 };
    let o: u64 = if m.option { OPTION_MASK } else { 0 };
    let d: u64 = if m.command { COMMAND_MASK } else { 0 };
    let l: u64 = if m.caps_lock { CAPS_LOCK_MASK } else { 0 };
    assert((s == 0 || s == 0x0002_0000) && (c == 0 || c == 0x0004_0000) && (o == 0 || o
        == 0x0008_0000) && (d == 0 || d == 0x0010_0000) && (l == 0 || l == 0x0001_0000) ==> ((s | c
        | o | d | l) & 0x0002_0000 != 0) == (s != 0) && ((s | c | o | d | l) & 0x0004_0000 != 0)
        == (c != 0) && ((s | c | o | d | l) & 0x0008_0000 != 0) == (o != 0) && ((s | c | o | d
        | l) & 0x0010_0000 != 0) == (d != 0) && ((s | c | o | d | l) & 0x0001_0000 != 0) == (l
        != 0)) by (bit_vector);
}

} // verus!
