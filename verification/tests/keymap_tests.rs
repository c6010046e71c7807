use neonex::keymap::{
    map_ascii, map_scan_code, map_uefi_key, PhysicalKeyCode, UefiKey, SCAN_DELETE, SCAN_DOWN,
    SCAN_END, SCAN_ESCAPE, SCAN_FUNCTION_1, SCAN_HOME, SCAN_INSERT, SCAN_LEFT, SCAN_MUTE,
    SCAN_PAGE_DOWN, SCAN_PAGE_UP, SCAN_RIGHT, SCAN_UP, SCAN_VOLUME_DOWN, SCAN_VOLUME_UP,
};

#[test]
fn letters_fold_case_onto_their_key() {
    assert_eq!(map_uefi_key(Some(UefiKey::Printable('a'))), Some(PhysicalKeyCode::Letter('a')));
    assert_eq!(map_uefi_key(Some(UefiKey::Printable('A'))), Some(PhysicalKeyCode::Letter('a')));
    assert_eq!(map_uefi_key(Some(UefiKey::Printable('Z'))), Some(PhysicalKeyCode::Letter('z')));
    assert_eq!(map_uefi_key(Some(UefiKey::Printable('q'))), Some(PhysicalKeyCode::Letter('q')));
}

#[test]
fn digits_map_onto_their_key() {
    assert_eq!(map_uefi_key(Some(UefiKey::Printable('0'))), Some(PhysicalKeyCode::Digit('0')));
    assert_eq!(map_uefi_key(Some(UefiKey::Printable('9'))), Some(PhysicalKeyCode::Digit('9')));
}

#[test]
fn carriage_return_is_the_enter_key() {
    assert_eq!(map_uefi_key(Some(UefiKey::Printable('\r'))), Some(PhysicalKeyCode::Enter));
}

#[test]
fn whitespace_and_punctuation_map_onto_their_keys() {
    assert_eq!(map_ascii(' '), PhysicalKeyCode::Space);
    assert_eq!(map_ascii('\t'), PhysicalKeyCode::Tab);
    assert_eq!(map_ascii('-'), PhysicalKeyCode::Minus);
    assert_eq!(map_ascii('='), PhysicalKeyCode::Equal);
    assert_eq!(map_ascii('\\'), PhysicalKeyCode::Backslash);
    assert_eq!(map_ascii(';'), PhysicalKeyCode::Semicolon);
    assert_eq!(map_ascii(','), PhysicalKeyCode::Comma);
    assert_eq!(map_ascii('.'), PhysicalKeyCode::Period);
    assert_eq!(map_ascii('/'), PhysicalKeyCode::Slash);
}

#[test]
fn unmapped_ascii_is_unidentified() {
    assert_eq!(map_ascii('!'), PhysicalKeyCode::Unidentified);
    assert_eq!(map_ascii('['), PhysicalKeyCode::Unidentified);
    assert_eq!(map_uefi_key(Some(UefiKey::Printable('%'))), Some(PhysicalKeyCode::Unidentified));
}

#[test]
fn non_ascii_printables_produce_no_key() {
    assert_eq!(map_uefi_key(Some(UefiKey::Printable('é'))), None);
    assert_eq!(map_uefi_key(Some(UefiKey::Printable('\u{203d}'))), None);
}

#[test]
fn special_scan_codes_map_onto_their_keys() {
    assert_eq!(map_scan_code(SCAN_ESCAPE), Some(PhysicalKeyCode::Escape));
    assert_eq!(map_scan_code(SCAN_UP), Some(PhysicalKeyCode::ArrowUp));
    assert_eq!(map_scan_code(SCAN_DOWN), Some(PhysicalKeyCode::ArrowDown));
    assert_eq!(map_scan_code(SCAN_LEFT), Some(PhysicalKeyCode::ArrowLeft));
    assert_eq!(map_scan_code(SCAN_RIGHT), Some(PhysicalKeyCode::ArrowRight));
    assert_eq!(map_scan_code(SCAN_PAGE_UP), Some(PhysicalKeyCode::PageUp));
    assert_eq!(map_scan_code(SCAN_PAGE_DOWN), Some(PhysicalKeyCode::PageDown));
    assert_eq!(map_scan_code(SCAN_HOME), Some(PhysicalKeyCode::Home));
    assert_eq!(map_scan_code(SCAN_END), Some(PhysicalKeyCode::End));
    assert_eq!(map_scan_code(SCAN_INSERT), Some(PhysicalKeyCode::Insert));
    assert_eq!(map_scan_code(SCAN_DELETE), Some(PhysicalKeyCode::Delete));
    assert_eq!(map_scan_code(SCAN_MUTE), Some(PhysicalKeyCode::AudioVolumeMute));
    assert_eq!(map_scan_code(SCAN_VOLUME_UP), Some(PhysicalKeyCode::AudioVolumeUp));
    assert_eq!(map_scan_code(SCAN_VOLUME_DOWN), Some(PhysicalKeyCode::AudioVolumeDown));
}

#[test]
fn function_keys_are_consecutive() {
    assert_eq!(map_scan_code(SCAN_FUNCTION_1), Some(PhysicalKeyCode::F(1)));
    assert_eq!(map_scan_code(SCAN_FUNCTION_1 + 4), Some(PhysicalKeyCode::F(5)));
    assert_eq!(map_scan_code(SCAN_FUNCTION_1 + 11), Some(PhysicalKeyCode::F(12)));
}

#[test]
fn unmapped_scan_codes_produce_no_key() {
    assert_eq!(map_scan_code(0x00), None);
    assert_eq!(map_scan_code(0x50), None);
    assert_eq!(map_uefi_key(Some(UefiKey::Special(0x105))), None);
}

#[test]
fn an_empty_read_produces_no_key() {
    assert_eq!(map_uefi_key(None), None);
}
