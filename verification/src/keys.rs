//! Key codes and the characters that they type.

use vstd::prelude::*;

verus! {

/// A key of the keyboard, named by its position on a US layout.
#[derive(Debug, Clone, Copy, PartialEq, Eq, Hash)]
pub enum VirtualKeyCode {
    Key1,
    Key2,
    Key3,
    Key4,
    Key5,
    Key6,
    Key7,
    Key8,
    Key9,
    Key0,
    A,
    B,
    C,
    D,
    E,
    F,
    G,
    H,
    I,
    J,
    K,
    L,
    M,
    N,
    O,
    P,
    Q,
    R,
    S,
    T,
    U,
    V,
    W,
    X,
    Y,
    Z,
    Escape,
    F1,
    F2,
    F3,
    F4,
    F5,
    F6,
    F7,
    F8,
    F9,
    F10,
    F11,
    F12,
    F13,
    F14,
    F15,
    F16,
    F17,
    F18,
    F19,
    F20,
    F21,
    F22,
    F23,
    F24,
    Snapshot,
    Scroll,
    Pause,
    Insert,
    Home,
    Delete,
    End,
    PageDown,
    PageUp,
    Left,
    Up,
    Right,
    Down,
    Back,
    Return,
    Space,
    Compose,
    Caret,
    Numlock,
    Numpad0,
    Numpad1,
    Numpad2,
    Numpad3,
    Numpad4,
    Numpad5,
    Numpad6,
    Numpad7,
    Numpad8,
    Numpad9,
    NumpadAdd,
    NumpadDivide,
    NumpadDecimal,
    NumpadComma,
    NumpadEnter,
    NumpadEquals,
    NumpadMultiply,
    NumpadSubtract,
    AbntC1,
    AbntC2,
    Apostrophe,
    Apps,
    Asterisk,
    At,
    Ax,
    Backslash,
    Calculator,
    Capital,
    Colon,
    Comma,
    Convert,
    Equals,
    Grave,
    Kana,
    Kanji,
    LAlt,
    LBracket,
    LControl,
    LShift,
    LWin,
    Mail,
    MediaSelect,
    MediaStop,
    Minus,
    Mute,
    MyComputer,
    NavigateForward,
    NavigateBackward,
    NextTrack,
    NoConvert,
    OEM102,
    Period,
    PlayPause,
    Plus,
    Power,
    PrevTrack,
    RAlt,
    RBracket,
    RControl,
    RShift,
    RWin,
    Semicolon,
    Slash,
    Sleep,
    Stop,
    Sysrq,
    Tab,
    Underline,
    Unlabeled,
    VolumeDown,
    VolumeUp,
    Wake,
    WebBack,
    WebFavorites,
    WebForward,
    WebHome,
    WebRefresh,
    WebSearch,
    WebStop,
    Yen,
    Copy,
    Paste,
    Cut,
}

/// The character that a key of the main block types without shift, if it
/// types one.
pub open spec fn plain_char(vk: VirtualKeyCode) -> Option<char> {
    match vk {
        VirtualKeyCode::Key1 => Some('1'),
        VirtualKeyCode::Key2 => Some('2'),
        VirtualKeyCode::Key3 => Some('3'),
        VirtualKeyCode::Key4 => Some('4'),
        VirtualKeyCode::Key5 => Some('5'),
        VirtualKeyCode::Key6 => Some('6'),
        VirtualKeyCode::Key7 => Some('7'),
        VirtualKeyCode::Key8 => Some('8'),
        VirtualKeyCode::Key9 => Some('9'),
        VirtualKeyCode::Key0 => Some('0'),
        VirtualKeyCode::A => Some('a'),
        VirtualKeyCode::B => Some('b'),
        VirtualKeyCode::C => Some('c'),
        VirtualKeyCode::D => Some('d'),
        VirtualKeyCode::E => Some('e'),
        VirtualKeyCode::F => Some('f'),
        VirtualKeyCode::G => Some('g'),
        VirtualKeyCode::H => Some('h'),
        VirtualKeyCode::I => Some('i'),
        VirtualKeyCode::J => Some('j'),
        VirtualKeyCode::K => Some('k'),
        VirtualKeyCode::L => Some('l'),
        VirtualKeyCode::M => Some('m'),
        VirtualKeyCode::N => Some('n'),
        VirtualKeyCode::O => Some('o'),
        VirtualKeyCode::P => Some('p'),
        VirtualKeyCode::Q => Some('q'),
        VirtualKeyCode::R => Some('r'),
        VirtualKeyCode::S => Some('s'),
        VirtualKeyCode::T => Some('t'),
        VirtualKeyCode::U => Some('u'),
        VirtualKeyCode::V => Some('v'),
        VirtualKeyCode::W => Some('w'),
        VirtualKeyCode::X => Some('x'),
        VirtualKeyCode::Y => Some('y'),
        VirtualKeyCode::Z => Some('z'),
        VirtualKeyCode::Grave => Some('`'),
        VirtualKeyCode::Minus => Some('-'),
        VirtualKeyCode::Equals => Some('='),
        VirtualKeyCode::Tab => Some('\t'),
        VirtualKeyCode::LBracket => Some('['),
        VirtualKeyCode::RBracket => Some(']'),
        VirtualKeyCode::Backslash => Some('\\'),
        VirtualKeyCode::Semicolon => Some(';'),
        VirtualKeyCode::Apostrophe => Some('\''),
        VirtualKeyCode::Return => Some('\n'),
        VirtualKeyCode::Comma => Some(','),
        VirtualKeyCode::Period => Some('.'),
        VirtualKeyCode::Slash => Some('/'),
        VirtualKeyCode::Space => Some(' '),
        _ => None,
    }
}

/// The character that a key of the number pad types, if it types one.
pub open spec fn num_pad_char(vk: VirtualKeyCode) -> Option<char> {
    match vk {
        VirtualKeyCode::Numpad0 => Some('0'),
        VirtualKeyCode::Numpad1 => Some('1'),
        VirtualKeyCode::Numpad2 => Some('2'),
        VirtualKeyCode::Numpad3 => Some('3'),
        VirtualKeyCode::Numpad4 => Some('4'),
        VirtualKeyCode::Numpad5 => Some('5'),
        VirtualKeyCode::Numpad6 => Some('6'),
        VirtualKeyCode::Numpad7 => Some('7'),
        VirtualKeyCode::Numpad8 => Some('8'),
        VirtualKeyCode::Numpad9 => Some('9'),
        VirtualKeyCode::NumpadAdd => Some('+'),
        VirtualKeyCode::NumpadDivide => Some('/'),
        VirtualKeyCode::NumpadDecimal => Some('.'),
        VirtualKeyCode::NumpadMultiply => Some('*'),
        VirtualKeyCode::NumpadSubtract => Some('-'),
        _ => None,
    }
}

/// The character that shift makes of a digit or a punctuation mark of the
/// main block; other characters have none.
pub open spec fn shifted_char(ch: char) -> Option<char> {
    match ch {
        '1' => Some('!'),
        '2' => Some('@'),
        '3' => Some('#'),
        '4' => Some('$'),
        '5' => Some('%'),
        '6' => Some('^'),
        '7' => Some('&'),
        '8' => Some('*'),
        '9' => Some('('),
        '0' => Some(')'),
        '-' => Some('_'),
        '=' => Some('+'),
        '`' => Some('~'),
        '[' => Some('{'),
        ']' => Some('}'),
        '\\' => Some('|'),
        ';' => Some(':'),
        '\'' => Some('"'),
        ',' => Some('<'),
        '.' => Some('>'),
        '/' => Some('?'),
        _ => None,
    }
}

/// Whether the character is one of the small letters `a` to `z`.
pub open spec fn is_small_letter(ch: char) -> bool {
    'a' <= ch <= 'z'
}

/// Whether the character is one of the digits `0` to `9`.
pub open spec fn is_digit(ch: char) -> bool {
    '0' <= ch <= '9'
}

/// The capital letter of a small letter.
pub open spec fn capital(ch: char) -> char {
    ((ch as u8) - 32) as char
}

/// The character that a key types, given shift and the two locks. A letter
/// is capital where exactly one of shift and caps lock is on. Another key of
/// the main block types its shifted character under shift, if it has one,
/// and nothing if it has none. A digit of the number pad needs num lock; the
/// other keys of the number pad do not. All other keys type nothing.
pub open spec fn typed_char(vk: VirtualKeyCode, shift: bool, caps_lock: bool, num_lock: bool) -> Option<
    char,
> {
    match plain_char(vk) {
        Some(ch) => {
            if is_small_letter(ch) {
                if shift != caps_lock {
                    Some(capital(ch))
                } else {
                    Some(ch)
                }
            } else if shift {
                shifted_char(ch)
            } else {
                Some(ch)
            }
        },
        None => match num_pad_char(vk) {
            Some(ch) => if num_lock || !is_digit(ch) {
                Some(ch)
            } else {
                None
            },
            None => None,
        },
    }
}

fn num_pad(vk: VirtualKeyCode, num_lock: bool) -> (typed: Option<char>)
    ensures
        typed == match num_pad_char(vk) {
            Some(ch) => if num_lock || !is_digit(ch) {
                Some(ch)
            } else {
                None
            },
            None => None,
        },
{
    let ch = match vk {
        VirtualKeyCode::Numpad0 => '0',
        VirtualKeyCode::Numpad1 => '1',
        VirtualKeyCode::Numpad2 => '2',
        VirtualKeyCode::Numpad3 => '3',
        VirtualKeyCode::Numpad4 => '4',
        VirtualKeyCode::Numpad5 => '5',
        VirtualKeyCode::Numpad6 => '6',
        VirtualKeyCode::Numpad7 => '7',
        VirtualKeyCode::Numpad8 => '8',
        VirtualKeyCode::Numpad9 => '9',
        VirtualKeyCode::NumpadAdd => '+',
        VirtualKeyCode::NumpadDivide => '/',
        VirtualKeyCode::NumpadDecimal => '.',
        VirtualKeyCode::NumpadMultiply => '*',
        VirtualKeyCode::NumpadSubtract => '-',
        _ => {
            return None;
        },
    };
    if num_lock || !('0' <= ch && ch <= '9') {
        Some(ch)
    } else {
        None
    }
}

/// Computes `typed_char`.
pub fn key_as_char(vk: VirtualKeyCode, shift: bool, caps_lock: bool, num_lock: bool) -> (typed:
    Option<char>)
    ensures
        typed == typed_char(vk, shift, caps_lock, num_lock),
{
    let ch = match vk {
        VirtualKeyCode::Key1 => '1',
        VirtualKeyCode::Key2 => '2',
        VirtualKeyCode::Key3 => '3',
        VirtualKeyCode::Key4 => '4',
        VirtualKeyCode::Key5 => '5',
        VirtualKeyCode::Key6 => '6',
        VirtualKeyCode::Key7 => '7',
        VirtualKeyCode::Key8 => '8',
        VirtualKeyCode::Key9 => '9',
        VirtualKeyCode::Key0 => '0',
        VirtualKeyCode::A => 'a',
        VirtualKeyCode::B => 'b',
        VirtualKeyCode::C => 'c',
        VirtualKeyCode::D => 'd',
        VirtualKeyCode::E => 'e',
        VirtualKeyCode::F => 'f',
        VirtualKeyCode::G => 'g',
        VirtualKeyCode::H => 'h',
        VirtualKeyCode::I => 'i',
        VirtualKeyCode::J => 'j',
        VirtualKeyCode::K => 'k',
        VirtualKeyCode::L => 'l',
        VirtualKeyCode::M => 'm',
        VirtualKeyCode::N => 'n',
        VirtualKeyCode::O => 'o',
        VirtualKeyCode::P => 'p',
        VirtualKeyCode::Q => 'q',
        VirtualKeyCode::R => 'r',
        VirtualKeyCode::S => 's',
        VirtualKeyCode::T => 't',
        VirtualKeyCode::U => 'u',
        VirtualKeyCode::V => 'v',
        VirtualKeyCode::W => 'w',
        VirtualKeyCode::X => 'x',
        VirtualKeyCode::Y => 'y',
        VirtualKeyCode::Z => 'z',
        VirtualKeyCode::Grave => '`',
        VirtualKeyCode::Minus => '-',
        VirtualKeyCode::Equals => '=',
        VirtualKeyCode::Tab => '\t',
        VirtualKeyCode::LBracket => '[',
        VirtualKeyCode::RBracket => ']',
        VirtualKeyCode::Backslash => '\\',
        VirtualKeyCode::Semicolon => ';',
        VirtualKeyCode::Apostrophe => '\'',
        VirtualKeyCode::Return => '\n',
        VirtualKeyCode::Comma => ',',
        VirtualKeyCode::Period => '.',
        VirtualKeyCode::Slash => '/',
        VirtualKeyCode::Space => ' ',
        _ => {
            return num_pad(vk, num_lock);
        },
    };
    if 'a' <= ch && ch <= 'z' {
        if shift ^ caps_lock {
            Some(((ch as u8) - 32) as char)
        } else {
            Some(ch)
        }
    } else {
        if shift {
            match ch {
                '1' => Some('!'),
                '2' => Some('@'),
                '3' => Some('#'),
                '4' => Some('$'),
                '5' => Some('%'),
                '6' => Some('^'),
                '7' => Some('&'),
                '8' => Some('*'),
                '9' => Some('('),
                '0' => Some(')'),
                '-' => Some('_'),
                '=' => Some('+'),
                '`' => Some('~'),
                '[' => Some('{'),
                ']' => Some('}'),
                '\\' => Some('|'),
                ';' => Some(':'),
                '\'' => Some('"'),
                ',' => Some('<'),
                '.' => Some('>'),
                '/' => Some('?'),
                _ => None,
            }
        } else {
            Some(ch)
        }
    }
}

} // verus!
