//! Bidirectional keycode tables: the portable identity of each key on the
//! three supported platforms, and the laws that tie the tables together.

pub mod linux;
pub mod macos;
pub mod scancodes;
pub mod windows;

use crate::rdev::Key;
use vstd::prelude::*;

verus! {

/// True of the symbolic keys: every variant but the numeric escape hatches.
pub open spec fn named_key(key: Key) -> bool {
    !(key is Unknown) && !(key is RawKey)
}

/// True when all three platform tables name the key.
pub open spec fn in_all_tables(key: Key) -> bool {
    &&& named_key(key)
    &&& macos::code_for(key) is Some
    &&& windows::code_for(key) is Some
    &&& linux::code_for(key) is Some
}

/// The macOS keycode of a key, widened to the shared `u32` shape.
pub fn macos_keycode_from_key(key: Key) -> (r: Option<u32>)
    ensures
        match macos::code_for(key) {
            Some(code) => r == Some(code as u32),
            None => r is None,
        },
{
    match macos::code_from_key(key) {
        Some(code) => Some(code as u32),
        None => None,
    }
}

/// The Windows set-1 scancode of a key.
pub fn win_scancode_from_key(key: Key) -> (r: Option<u32>)
    ensures
        r == scancodes::scancode_for(key),
{
    scancodes::scancode_from_key(key)
}

/// The Linux keycode of a key.
pub fn linux_keycode_from_key(key: Key) -> (r: Option<u32>)
    ensures
        r == linux::code_for(key),
{
    linux::code_from_key(key)
}

/// On each platform, looking a named key's code back up yields the same
/// key: each table is injective on the keys it names.
pub proof fn lemma_table_round_trip(key: Key)
    requires
        named_key(key),
    ensures
        macos::code_for(key) matches Some(code) ==> macos::key_for(code) == key,
        windows::code_for(key) matches Some(code) ==> windows::key_for(code) == key,
        linux::code_for(key) matches Some(code) ==> linux::key_for(code) == key,
{
    match key {
        Key::Alt => {}
        Key::AltGr => {}
        Key::Backspace => {}
        Key::CapsLock => {}
        Key::ControlLeft => {}
        Key::ControlRight => {}
        Key::Delete => {}
        Key::DownArrow => {}
        Key::End => {}
        Key::Escape => {}
        Key::F1 => {}
        Key::F2 => {}
        Key::F3 => {}
        Key::F4 => {}
        Key::F5 => {}
        Key::F6 => {}
        Key::F7 => {}
        Key::F8 => {}
        Key::F9 => {}
        Key::F10 => {}
        Key::F11 => {}
        Key::F12 => {}
        Key::Home => {}
        Key::LeftArrow => {}
        Key::MetaLeft => {}
        Key::MetaRight => {}
        Key::PageDown => {}
        Key::PageUp => {}
        Key::Return => {}
        Key::RightArrow => {}
        Key::ShiftLeft => {}
        Key::ShiftRight => {}
        Key::Space => {}
        Key::Tab => {}
        Key::UpArrow => {}
        Key::PrintScreen => {}
        Key::ScrollLock => {}
        Key::Pause => {}
        Key::NumLock => {}
        Key::BackQuote => {}
        Key::Num1 => {}
        Key::Num2 => {}
        Key::Num3 => {}
        Key::Num4 => {}
        Key::Num5 => {}
        Key::Num6 => {}
        Key::Num7 => {}
        Key::Num8 => {}
        Key::Num9 => {}
        Key::Num0 => {}
        Key::Minus => {}
        Key::Equal => {}
        Key::KeyQ => {}
        Key::KeyW => {}
        Key::KeyE => {}
        Key::KeyR => {}
        Key::KeyT => {}
        Key::KeyY => {}
        Key::KeyU => {}
        Key::KeyI => {}
        Key::KeyO => {}
        Key::KeyP => {}
        Key::LeftBracket => {}
        Key::RightBracket => {}
        Key::KeyA => {}
        Key::KeyS => {}
        Key::KeyD => {}
        Key::KeyF => {}
        Key::KeyG => {}
        Key::KeyH => {}
        Key::KeyJ => {}
        Key::KeyK => {}
        Key::KeyL => {}
        Key::SemiColon => {}
        Key::Quote => {}
        Key::BackSlash => {}
        Key::IntlBackslash => {}
        Key::KeyZ => {}
        Key::KeyX => {}
        Key::KeyC => {}
        Key::KeyV => {}
        Key::KeyB => {}
        Key::KeyN => {}
        Key::KeyM => {}
        Key::Comma => {}
        Key::Dot => {}
        Key::Slash => {}
        Key::Insert => {}
        Key::KpReturn => {}
        Key::KpMinus => {}
        Key::KpPlus => {}
        Key::KpMultiply => {}
        Key::KpDivide => {}
        Key::Kp0 => {}
        Key::Kp1 => {}
        Key::Kp2 => {}
        Key::Kp3 => {}
        Key::Kp4 => {}
        Key::Kp5 => {}
        Key::Kp6 => {}
        Key::Kp7 => {}
        Key::Kp8 => {}
        Key::Kp9 => {}
        Key::KpDelete => {}
        Key::Function => {}
        Key::VolumeUp => {}
        Key::VolumeDown => {}
        Key::VolumeMute => {}
        Key::Unknown(_) => {}
        Key::RawKey(_) => {}
    }
}

/// Law: every key that all three platform tables name survives the round
/// trip from key to platform code and back, on each platform.
pub proof fn lemma_key_round_trip(key: Key)
    requires
        in_all_tables(key),
    ensures
        macos::code_for(key) matches Some(code) && macos::key_for(code) == key,
        windows::code_for(key) matches Some(code) && windows::key_for(code) == key,
        linux::code_for(key) matches Some(code) && linux::key_for(code) == key,
{
    lemma_table_round_trip(key);
}

} // verus!
