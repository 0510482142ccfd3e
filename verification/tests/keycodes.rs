//! The keycode tables: round trips, escape hatches, and the facades.

use rdev::keycodes::{linux, macos, scancodes, windows};
use rdev::{linux_keycode_from_key, macos_keycode_from_key, win_scancode_from_key, Key, RawKey};

/// Keys named by all three tables survive the key → code → key round trip.
#[test]
fn round_trip_common_keys() {
    let keys = [
        Key::Alt,
        Key::AltGr,
        Key::Backspace,
        Key::CapsLock,
        Key::ControlLeft,
        Key::ControlRight,
        Key::Delete,
        Key::DownArrow,
        Key::End,
        Key::Escape,
        Key::F1,
        Key::F12,
        Key::Home,
        Key::LeftArrow,
        Key::MetaLeft,
        Key::MetaRight,
        Key::PageDown,
        Key::PageUp,
        Key::Return,
        Key::RightArrow,
        Key::ShiftLeft,
        Key::ShiftRight,
        Key::Space,
        Key::Tab,
        Key::UpArrow,
        Key::BackQuote,
        Key::Num0,
        Key::Num9,
        Key::Minus,
        Key::Equal,
        Key::KeyQ,
        Key::KeyA,
        Key::KeyZ,
        Key::KeyM,
        Key::SemiColon,
        Key::Quote,
        Key::BackSlash,
        Key::IntlBackslash,
        Key::Comma,
        Key::Dot,
        Key::Slash,
        Key::KpMinus,
        Key::KpPlus,
        Key::KpMultiply,
        Key::KpDivide,
        Key::Kp0,
        Key::Kp9,
        Key::KpDelete,
        Key::VolumeUp,
        Key::VolumeDown,
        Key::VolumeMute,
    ];
    for key in keys {
        let mac = macos::code_from_key(key).expect("macOS code");
        assert_eq!(macos::key_from_code(mac), key);
        let win = windows::code_from_key(key).expect("Windows code");
        assert_eq!(windows::key_from_code(win), key);
        let lin = linux::code_from_key(key).expect("Linux code");
        assert_eq!(linux::key_from_code(lin), key);
    }
}

/// Specific well-known codes resolve to the keys they name.
#[test]
fn known_codes() {
    assert_eq!(macos::key_from_code(0x00), Key::KeyA);
    assert_eq!(macos::key_from_code(0x0B), Key::KeyB);
    assert_eq!(macos::key_from_code(0x24), Key::Return);
    assert_eq!(windows::key_from_code(0x41), Key::KeyA);
    assert_eq!(windows::key_from_code(0x0D), Key::Return);
    assert_eq!(windows::key_from_code(0xA0), Key::ShiftLeft);
    assert_eq!(linux::key_from_code(38), Key::KeyA);
    assert_eq!(linux::key_from_code(36), Key::Return);
    assert_eq!(linux::key_from_code(50), Key::ShiftLeft);
}

/// The raw-key escape hatch round-trips through its own platform and is
/// refused by the others.
#[test]
fn raw_key_escape_hatch() {
    let mac = Key::RawKey(RawKey::MacVirtualKeycode(0x1234));
    assert_eq!(macos::code_from_key(mac), Some(0x1234));
    assert_eq!(windows::code_from_key(mac), None);
    assert_eq!(linux::code_from_key(mac), None);

    let win = Key::RawKey(RawKey::WinVirtualKeycode(0xABCD));
    assert_eq!(windows::code_from_key(win), Some(0xABCD));
    assert_eq!(macos::code_from_key(win), None);

    let scan = Key::RawKey(RawKey::ScanCode(0xE01D));
    assert_eq!(scancodes::scancode_from_key(scan), Some(0xE01D));
}

/// An unmapped code keeps its numeric identity through `Key::Unknown`.
#[test]
fn unknown_code_round_trip() {
    let key = windows::key_from_code(0xFF01);
    assert_eq!(key, Key::Unknown(0xFF01));
    assert_eq!(windows::code_from_key(key), Some(0xFF01));

    let mac_key = macos::key_from_code(0x7F);
    assert_eq!(mac_key, Key::Unknown(0x7F));
    assert_eq!(macos::code_from_key(mac_key), Some(0x7F));
    assert_eq!(macos::code_from_key(Key::Unknown(0x10000)), None);
}

/// Keys that one platform lacks have no code there.
#[test]
fn platform_gaps() {
    assert_eq!(macos::code_from_key(Key::Insert), None);
    assert_eq!(macos::code_from_key(Key::NumLock), None);
    assert_eq!(windows::code_from_key(Key::KpReturn), None);
    assert_eq!(windows::code_from_key(Key::Function), None);
    assert_eq!(linux::code_from_key(Key::Function), None);
}

/// The cross-platform facades agree with the per-platform tables.
#[test]
fn facades() {
    assert_eq!(macos_keycode_from_key(Key::KeyA), Some(0x00));
    assert_eq!(macos_keycode_from_key(Key::Insert), None);
    assert_eq!(linux_keycode_from_key(Key::KeyA), Some(38));
    assert_eq!(win_scancode_from_key(Key::KeyA), Some(0x1E));
    assert_eq!(win_scancode_from_key(Key::ControlRight), Some(0xE01D));
    assert_eq!(win_scancode_from_key(Key::Pause), None);
}
