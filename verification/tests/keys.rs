use glume::keys::key_as_char;
use glume::keys::VirtualKeyCode;

#[test]
fn letters_follow_shift_and_caps_lock() {
    assert_eq!(key_as_char(VirtualKeyCode::A, false, false, false), Some('a'));
    assert_eq!(key_as_char(VirtualKeyCode::A, true, false, false), Some('A'));
    assert_eq!(key_as_char(VirtualKeyCode::A, false, true, false), Some('A'));
    assert_eq!(key_as_char(VirtualKeyCode::A, true, true, false), Some('a'));
    assert_eq!(key_as_char(VirtualKeyCode::Z, true, false, true), Some('Z'));
    assert_eq!(key_as_char(VirtualKeyCode::M, false, false, true), Some('m'));
}

#[test]
fn digits_and_marks_follow_shift_only() {
    assert_eq!(key_as_char(VirtualKeyCode::Key1, false, false, false), Some('1'));
    assert_eq!(key_as_char(VirtualKeyCode::Key1, true, false, false), Some('!'));
    assert_eq!(key_as_char(VirtualKeyCode::Key1, false, true, false), Some('1'));
    assert_eq!(key_as_char(VirtualKeyCode::Key0, true, true, false), Some(')'));
    assert_eq!(key_as_char(VirtualKeyCode::Key2, true, false, false), Some('@'));
    assert_eq!(key_as_char(VirtualKeyCode::Key6, true, false, false), Some('^'));
    assert_eq!(key_as_char(VirtualKeyCode::Minus, true, false, false), Some('_'));
    assert_eq!(key_as_char(VirtualKeyCode::Equals, true, false, false), Some('+'));
    assert_eq!(key_as_char(VirtualKeyCode::Grave, true, false, false), Some('~'));
    assert_eq!(key_as_char(VirtualKeyCode::Grave, false, false, false), Some('`'));
    assert_eq!(key_as_char(VirtualKeyCode::LBracket, true, false, false), Some('{'));
    assert_eq!(key_as_char(VirtualKeyCode::RBracket, true, false, false), Some('}'));
    assert_eq!(key_as_char(VirtualKeyCode::Backslash, false, false, false), Some('\\'));
    assert_eq!(key_as_char(VirtualKeyCode::Backslash, true, false, false), Some('|'));
    assert_eq!(key_as_char(VirtualKeyCode::Semicolon, true, false, false), Some(':'));
    assert_eq!(key_as_char(VirtualKeyCode::Apostrophe, false, false, false), Some('\''));
    assert_eq!(key_as_char(VirtualKeyCode::Apostrophe, true, false, false), Some('"'));
    assert_eq!(key_as_char(VirtualKeyCode::Comma, true, false, false), Some('<'));
    assert_eq!(key_as_char(VirtualKeyCode::Period, true, false, false), Some('>'));
    assert_eq!(key_as_char(VirtualKeyCode::Slash, true, false, false), Some('?'));
}

#[test]
fn white_space_has_no_shifted_form() {
    assert_eq!(key_as_char(VirtualKeyCode::Space, false, false, false), Some(' '));
    assert_eq!(key_as_char(VirtualKeyCode::Tab, false, true, false), Some('\t'));
    assert_eq!(key_as_char(VirtualKeyCode::Return, false, false, false), Some('\n'));
    assert_eq!(key_as_char(VirtualKeyCode::Space, true, false, false), None);
    assert_eq!(key_as_char(VirtualKeyCode::Tab, true, false, false), None);
    assert_eq!(key_as_char(VirtualKeyCode::Return, true, false, false), None);
}

#[test]
fn number_pad_digits_need_num_lock() {
    assert_eq!(key_as_char(VirtualKeyCode::Numpad7, false, false, true), Some('7'));
    assert_eq!(key_as_char(VirtualKeyCode::Numpad7, false, false, false), None);
    assert_eq!(key_as_char(VirtualKeyCode::Numpad0, true, true, true), Some('0'));
    assert_eq!(key_as_char(VirtualKeyCode::NumpadAdd, false, false, false), Some('+'));
    assert_eq!(key_as_char(VirtualKeyCode::NumpadAdd, true, false, true), Some('+'));
    assert_eq!(key_as_char(VirtualKeyCode::NumpadDivide, false, false, false), Some('/'));
    assert_eq!(key_as_char(VirtualKeyCode::NumpadDecimal, false, false, false), Some('.'));
    assert_eq!(key_as_char(VirtualKeyCode::NumpadMultiply, false, false, false), Some('*'));
    assert_eq!(key_as_char(VirtualKeyCode::NumpadSubtract, false, false, false), Some('-'));
}

#[test]
fn other_keys_type_nothing() {
    assert_eq!(key_as_char(VirtualKeyCode::Escape, false, false, false), None);
    assert_eq!(key_as_char(VirtualKeyCode::F1, true, true, true), None);
    assert_eq!(key_as_char(VirtualKeyCode::LShift, true, false, false), None);
    assert_eq!(key_as_char(VirtualKeyCode::NumpadEnter, false, false, true), None);
    assert_eq!(key_as_char(VirtualKeyCode::NumpadComma, false, false, true), None);
    assert_eq!(key_as_char(VirtualKeyCode::Copy, false, false, false), None);
}

#[test]
fn every_letter_has_its_capital() {
    let keys = [
        VirtualKeyCode::A, VirtualKeyCode::B, VirtualKeyCode::C, VirtualKeyCode::D,
        VirtualKeyCode::E, VirtualKeyCode::F, VirtualKeyCode::G, VirtualKeyCode::H,
        VirtualKeyCode::I, VirtualKeyCode::J, VirtualKeyCode::K, VirtualKeyCode::L,
        VirtualKeyCode::M, VirtualKeyCode::N, VirtualKeyCode::O, VirtualKeyCode::P,
        VirtualKeyCode::Q, VirtualKeyCode::R, VirtualKeyCode::S, VirtualKeyCode::T,
        VirtualKeyCode::U, VirtualKeyCode::V, VirtualKeyCode::W, VirtualKeyCode::X,
        VirtualKeyCode::Y, VirtualKeyCode::Z,
    ];
    for (i, key) in keys.iter().enumerate() {
        let small = (b'a' + i as u8) as char;
        assert_eq!(key_as_char(*key, false, false, false), Some(small));
        assert_eq!(key_as_char(*key, true, false, false), Some(small.to_ascii_uppercase()));
    }
}
