//! Normalizing firmware console keystrokes into physical key codes.
//!
//! A firmware text console reports a keystroke either as a printable UCS-2
//! character or as a special scan code.  The application wants physical key
//! codes.  This table maps one to the other: ASCII letters fold case onto
//! their letter key, an unmapped ASCII character becomes `Unidentified`, a
//! non-ASCII printable and an unmapped scan code produce no key at all.
//! Waiting for the keystroke is device I/O and stays outside; this module
//! maps the value that was read.

use vstd::prelude::*;

verus! {

/// Scan code: move cursor up one row.
pub const SCAN_UP: u16 = 0x01;

/// Scan code: move cursor down one row.
pub const SCAN_DOWN: u16 = 0x02;

/// Scan code: move cursor right one column.
pub const SCAN_RIGHT: u16 = 0x03;

/// Scan code: move cursor left one column.
pub const SCAN_LEFT: u16 = 0x04;

/// Scan code: the Home key.
pub const SCAN_HOME: u16 = 0x05;

/// Scan code: the End key.
pub const SCAN_END: u16 = 0x06;

/// Scan code: the Insert key.
pub const SCAN_INSERT: u16 = 0x07;

/// Scan code: the Delete key.
pub const SCAN_DELETE: u16 = 0x08;

/// Scan code: the Page Up key.
pub const SCAN_PAGE_UP: u16 = 0x09;

/// Scan code: the Page Down key.
pub const SCAN_PAGE_DOWN: u16 = 0x0A;

/// Scan code: the first function key; F1 through F12 are consecutive.
pub const SCAN_FUNCTION_1: u16 = 0x0B;

/// Scan code: the Escape key.
pub const SCAN_ESCAPE: u16 = 0x17;

/// Scan code: mute the audio volume.
pub const SCAN_MUTE: u16 = 0x7F;

/// Scan code: raise the audio volume.
pub const SCAN_VOLUME_UP: u16 = 0x80;

/// Scan code: lower the audio volume.
pub const SCAN_VOLUME_DOWN: u16 = 0x81;

/// A keystroke as the firmware console reports it.
#[derive(Clone, Copy, Debug, PartialEq, Eq, Structural)]
pub enum UefiKey {
    /// A printable UCS-2 character.
    Printable(char),
    /// A special key, by scan code.
    Special(u16),
}

/// A physical key on the keyboard, as the application consumes it.
#[derive(Clone, Copy, Debug, PartialEq, Eq, Structural)]
pub enum PhysicalKeyCode {
    /// A letter key, by its lower-case letter.
    Letter(char),
    /// A digit key, by its digit character.
    Digit(char),
    /// The space bar.
    Space,
    /// The Tab key.
    Tab,
    /// The minus key.
    Minus,
    /// The equals key.
    Equal,
    /// The backslash key.
    Backslash,
    /// The semicolon key.
    Semicolon,
    /// The comma key.
    Comma,
    /// The period key.
    Period,
    /// The slash key.
    Slash,
    /// The Enter key.
    Enter,
    /// The Escape key.
    Escape,
    /// The up arrow key.
    ArrowUp,
    /// The down arrow key.
    ArrowDown,
    /// The left arrow key.
    ArrowLeft,
    /// The right arrow key.
    ArrowRight,
    /// The Page Up key.
    PageUp,
    /// The Page Down key.
    PageDown,
    /// The Home key.
    Home,
    /// The End key.
    End,
    /// The Insert key.
    Insert,
    /// The Delete key.
    Delete,
    /// A numbered function key.
    F(u8),
    /// Mute the audio volume.
    AudioVolumeMute,
    /// Raise the audio volume.
    AudioVolumeUp,
    /// Lower the audio volume.
    AudioVolumeDown,
    /// An ASCII character with no key of its own.
    Unidentified,
}

/// Whether a character is an ASCII letter.
pub open spec fn spec_is_ascii_letter(c: char) -> bool {
    ('a' <= c && c <= 'z') || ('A' <= c && c <= 'Z')
}

/// The lower-case form of an ASCII letter.
pub open spec fn spec_ascii_lower(c: char) -> char {
    if 'A' <= c && c <= 'Z' {
        ((c as u32 + 32) as u8) as char
    } else {
        c
    }
}

/// The key a printable ASCII character maps to: letters fold case onto
/// their letter key, digits onto their digit key, the mapped whitespace and
/// punctuation onto their own keys, anything else onto `Unidentified`.
pub open spec fn spec_map_ascii(c: char) -> PhysicalKeyCode {
    if spec_is_ascii_letter(c) {
        PhysicalKeyCode::Letter(spec_ascii_lower(c))
    } else if '0' <= c && c <= '9' {
        PhysicalKeyCode::Digit(c)
    } else if c == ' ' {
        PhysicalKeyCode::Space
    } else if c == '\t' {
        PhysicalKeyCode::Tab
    } else if c == '-' {
        PhysicalKeyCode::Minus
    } else if c == '=' {
        PhysicalKeyCode::Equal
    } else if c == '\\' {
        PhysicalKeyCode::Backslash
    } else if c == ';' {
        PhysicalKeyCode::Semicolon
    } else if c == ',' {
        PhysicalKeyCode::Comma
    } else if c == '.' {
        PhysicalKeyCode::Period
    } else if c == '/' {
        PhysicalKeyCode::Slash
    } else {
        PhysicalKeyCode::Unidentified
    }
}

/// The key a scan code maps to, if any.
pub open spec fn spec_map_scan_code(code: u16) -> Option<PhysicalKeyCode> {
    if code == SCAN_ESCAPE {
        Some(PhysicalKeyCode::Escape)
    } else if code == SCAN_UP {
        Some(PhysicalKeyCode::ArrowUp)
    } else if code == SCAN_DOWN {
        Some(PhysicalKeyCode::ArrowDown)
    } else if code == SCAN_LEFT {
        Some(PhysicalKeyCode::ArrowLeft)
    } else if code == SCAN_RIGHT {
        Some(PhysicalKeyCode::ArrowRight)
    } else if code == SCAN_PAGE_UP {
        Some(PhysicalKeyCode::PageUp)
    } else if code == SCAN_PAGE_DOWN {
        Some(PhysicalKeyCode::PageDown)
    } else if code == SCAN_HOME {
        Some(PhysicalKeyCode::Home)
    } else if code == SCAN_END {
        Some(PhysicalKeyCode::End)
    } else if code == SCAN_INSERT {
        Some(PhysicalKeyCode::Insert)
    } else if code == SCAN_DELETE {
        Some(PhysicalKeyCode::Delete)
    } else if SCAN_FUNCTION_1 <= code && code < SCAN_FUNCTION_1 + 12 {
        Some(PhysicalKeyCode::F((code - SCAN_FUNCTION_1 + 1) as u8))
    } else if code == SCAN_MUTE {
        Some(PhysicalKeyCode::AudioVolumeMute)
    } else if code == SCAN_VOLUME_UP {
        Some(PhysicalKeyCode::AudioVolumeUp)
    } else if code == SCAN_VOLUME_DOWN {
        Some(PhysicalKeyCode::AudioVolumeDown)
    } else {
        None
    }
}

/// The key a firmware keystroke maps to: carriage return is the Enter key,
/// any other printable maps through the ASCII table or — when not ASCII —
/// to no key, a special keystroke maps through the scan-code table, and an
/// empty read maps to no key.
pub open spec fn spec_map_uefi_key(key: Option<UefiKey>) -> Option<PhysicalKeyCode> {
    match key {
        None => None,
        Some(UefiKey::Printable(c)) => {
            if c == '\r' {
                Some(PhysicalKeyCode::Enter)
            } else if (c as u32) < 128 {
                Some(spec_map_ascii(c))
            } else {
                None
            }
        },
        Some(UefiKey::Special(code)) => spec_map_scan_code(code),
    }
}

/// Maps a printable ASCII character to its key.
pub fn map_ascii(c: char) -> (k: PhysicalKeyCode)
    ensures
        k == spec_map_ascii(c),
{
    if c >= 'a' && c <= 'z' {
        PhysicalKeyCode::Letter(c)
    } else if c >= 'A' && c <= 'Z' {
        let lowered = ((c as u32) + 32) as u8 as char;
        proof {
            assert(spec_ascii_lower(c) == lowered);
        }
        PhysicalKeyCode::Letter(lowered)
    } else if c >= '0' && c <= '9' {
        PhysicalKeyCode::Digit(c)
    } else if c == ' ' {
        PhysicalKeyCode::Space
    } else if c == '\t' {
        PhysicalKeyCode::Tab
    } else if c == '-' {
        PhysicalKeyCode::Minus
    } else if c == '=' {
        PhysicalKeyCode::Equal
    } else if c == '\\' {
        PhysicalKeyCode::Backslash
    } else if c == ';' {
        PhysicalKeyCode::Semicolon
    } else if c == ',' {
        PhysicalKeyCode::Comma
    } else if c == '.' {
        PhysicalKeyCode::Period
    } else if c == '/' {
        PhysicalKeyCode::Slash
    } else {
        PhysicalKeyCode::Unidentified
    }
}

/// Maps a special scan code to its key, if it has one.
pub fn map_scan_code(code: u16) -> (k: Option<PhysicalKeyCode>)
    ensures
        k == spec_map_scan_code(code),
{
    if code == SCAN_ESCAPE {
        Some(PhysicalKeyCode::Escape)
    } else if code == SCAN_UP {
        Some(PhysicalKeyCode::ArrowUp)
    } else if code == SCAN_DOWN {
        Some(PhysicalKeyCode::ArrowDown)
    } else if code == SCAN_LEFT {
        Some(PhysicalKeyCode::ArrowLeft)
    } else if code == SCAN_RIGHT {
        Some(PhysicalKeyCode::ArrowRight)
    } else if code == SCAN_PAGE_UP {
        Some(PhysicalKeyCode::PageUp)
    } else if code == SCAN_PAGE_DOWN {
        Some(PhysicalKeyCode::PageDown)
    } else if code == SCAN_HOME {
        Some(PhysicalKeyCode::Home)
    } else if code == SCAN_END {
        Some(PhysicalKeyCode::End)
    } else if code == SCAN_INSERT {
        Some(PhysicalKeyCode::Insert)
    } else if code == SCAN_DELETE {
        Some(PhysicalKeyCode::Delete)
    } else if SCAN_FUNCTION_1 <= code && code < SCAN_FUNCTION_1 + 12 {
        Some(PhysicalKeyCode::F((code - SCAN_FUNCTION_1 + 1) as u8))
    } else if code == SCAN_MUTE {
        Some(PhysicalKeyCode::AudioVolumeMute)
    } else if code == SCAN_VOLUME_UP {
        Some(PhysicalKeyCode::AudioVolumeUp)
    } else if code == SCAN_VOLUME_DOWN {
        Some(PhysicalKeyCode::AudioVolumeDown)
    } else {
        None
    }
}

/// Maps a firmware keystroke, as read from the console, to the physical key
/// the application consumes, if it maps to one at all.
pub fn map_uefi_key(key: Option<UefiKey>) -> (k: Option<PhysicalKeyCode>)
    ensures
        k == spec_map_uefi_key(key),
{
    match key {
        None => None,
        Some(UefiKey::Printable(c)) => {
            if c == '\r' {
                Some(PhysicalKeyCode::Enter)
            } else if (c as u32) < 128 {
                Some(map_ascii(c))
            } else {
                None
            }
        },
        Some(UefiKey::Special(code)) => map_scan_code(code),
    }
}

} // verus!
