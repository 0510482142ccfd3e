//! Windows set-1 scancodes: the position-based identity of each key.
//! Extended keys carry the 0xE0 prefix in the high byte.

use crate::rdev::{Key, RawKey};
use vstd::prelude::*;

verus! {

/// The set-1 scancode the table assigns to a key, if any.
pub open spec fn scancode_for(key: Key) -> Option<u32> {
    match key {
        Key::Alt => Some(0x38),
        Key::AltGr => Some(0xE038),
        Key::Backspace => Some(0x0E),
        Key::CapsLock => Some(0x3A),
        Key::ControlLeft => Some(0x1D),
        Key::ControlRight => Some(0xE01D),
        Key::Delete => Some(0xE053),
        Key::DownArrow => Some(0xE050),
        Key::End => Some(0xE04F),
        Key::Escape => Some(0x01),
        Key::F1 => Some(0x3B),
        Key::F2 => Some(0x3C),
        Key::F3 => Some(0x3D),
        Key::F4 => Some(0x3E),
        Key::F5 => Some(0x3F),
        Key::F6 => Some(0x40),
        Key::F7 => Some(0x41),
        Key::F8 => Some(0x42),
        Key::F9 => Some(0x43),
        Key::F10 => Some(0x44),
        Key::F11 => Some(0x57),
        Key::F12 => Some(0x58),
        Key::Home => Some(0xE047),
        Key::LeftArrow => Some(0xE04B),
        Key::MetaLeft => Some(0xE05B),
        Key::MetaRight => Some(0xE05C),
        Key::PageDown => Some(0xE051),
        Key::PageUp => Some(0xE049),
        Key::Return => Some(0x1C),
        Key::RightArrow => Some(0xE04D),
        Key::ShiftLeft => Some(0x2A),
        Key::ShiftRight => Some(0x36),
        Key::Space => Some(0x39),
        Key::Tab => Some(0x0F),
        Key::UpArrow => Some(0xE048),
        Key::PrintScreen => Some(0xE037),
        Key::ScrollLock => Some(0x46),
        Key::NumLock => Some(0x45),
        Key::BackQuote => Some(0x29),
        Key::Num1 => Some(0x02),
        Key::Num2 => Some(0x03),
        Key::Num3 => Some(0x04),
        Key::Num4 => Some(0x05),
        Key::Num5 => Some(0x06),
        Key::Num6 => Some(0x07),
        Key::Num7 => Some(0x08),
        Key::Num8 => Some(0x09),
        Key::Num9 => Some(0x0A),
        Key::Num0 => Some(0x0B),
        Key::Minus => Some(0x0C),
        Key::Equal => Some(0x0D),
        Key::KeyQ => Some(0x10),
        Key::KeyW => Some(0x11),
        Key::KeyE => Some(0x12),
        Key::KeyR => Some(0x13),
        Key::KeyT => Some(0x14),
        Key::KeyY => Some(0x15),
        Key::KeyU => Some(0x16),
        Key::KeyI => Some(0x17),
        Key::KeyO => Some(0x18),
        Key::KeyP => Some(0x19),
        Key::LeftBracket => Some(0x1A),
        Key::RightBracket => Some(0x1B),
        Key::KeyA => Some(0x1E),
        Key::KeyS => Some(0x1F),
        Key::KeyD => Some(0x20),
        Key::KeyF => Some(0x21),
        Key::KeyG => Some(0x22),
        Key::KeyH => Some(0x23),
        Key::KeyJ => Some(0x24),
        Key::KeyK => Some(0x25),
        Key::KeyL => Some(0x26),
        Key::SemiColon => Some(0x27),
        Key::Quote => Some(0x28),
        Key::BackSlash => Some(0x2B),
        Key::IntlBackslash => Some(0x56),
        Key::KeyZ => Some(0x2C),
        Key::KeyX => Some(0x2D),
        Key::KeyC => Some(0x2E),
        Key::KeyV => Some(0x2F),
        Key::KeyB => Some(0x30),
        Key::KeyN => Some(0x31),
        Key::KeyM => Some(0x32),
        Key::Comma => Some(0x33),
        Key::Dot => Some(0x34),
        Key::Slash => Some(0x35),
        Key::Insert => Some(0xE052),
        Key::KpReturn => Some(0xE01C),
        Key::KpMinus => Some(0x4A),
        Key::KpPlus => Some(0x4E),
        Key::KpMultiply => Some(0x37),
        Key::KpDivide => Some(0xE035),
        Key::Kp0 => Some(0x52),
        Key::Kp1 => Some(0x4F),
        Key::Kp2 => Some(0x50),
        Key::Kp3 => Some(0x51),
        Key::Kp4 => Some(0x4B),
        Key::Kp5 => Some(0x4C),
        Key::Kp6 => Some(0x4D),
        Key::Kp7 => Some(0x47),
        Key::Kp8 => Some(0x48),
        Key::Kp9 => Some(0x49),
        Key::KpDelete => Some(0x53),
        Key::VolumeUp => Some(0xE030),
        Key::VolumeDown => Some(0xE02E),
        Key::VolumeMute => Some(0xE020),
        Key::RawKey(raw) => match raw {
            RawKey::ScanCode(code) => Some(code),
            _ => None,
        },
        _ => None,
    }
}

/// Looks the scancode of a key up.
pub fn scancode_from_key(key: Key) -> (r: Option<u32>)
    ensures
        r == scancode_for(key),
{
    match key {
        Key::Alt => Some(0x38),
        Key::AltGr => Some(0xE038),
        Key::Backspace => Some(0x0E),
        Key::CapsLock => Some(0x3A),
        Key::ControlLeft => Some(0x1D),
        Key::ControlRight => Some(0xE01D),
        Key::Delete => Some(0xE053),
        Key::DownArrow => Some(0xE050),
        Key::End => Some(0xE04F),
        Key::Escape => Some(0x01),
        Key::F1 => Some(0x3B),
        Key::F2 => Some(0x3C),
        Key::F3 => Some(0x3D),
        Key::F4 => Some(0x3E),
        Key::F5 => Some(0x3F),
        Key::F6 => Some(0x40),
        Key::F7 => Some(0x41),
        Key::F8 => Some(0x42),
        Key::F9 => Some(0x43),
        Key::F10 => Some(0x44),
        Key::F11 => Some(0x57),
        Key::F12 => Some(0x58),
        Key::Home => Some(0xE047),
        Key::LeftArrow => Some(0xE04B),
        Key::MetaLeft => Some(0xE05B),
        Key::MetaRight => Some(0xE05C),
        Key::PageDown => Some(0xE051),
        Key::PageUp => Some(0xE049),
        Key::Return => Some(0x1C),
        Key::RightArrow => Some(0xE04D),
        Key::ShiftLeft => Some(0x2A),
        Key::ShiftRight => Some(0x36),
        Key::Space => Some(0x39),
        Key::Tab => Some(0x0F),
        Key::UpArrow => Some(0xE048),
        Key::PrintScreen => Some(0xE037),
        Key::ScrollLock => Some(0x46),
        Key::NumLock => Some(0x45),
        Key::BackQuote => Some(0x29),
        Key::Num1 => Some(0x02),
        Key::Num2 => Some(0x03),
        Key::Num3 => Some(0x04),
        Key::Num4 => Some(0x05),
        Key::Num5 => Some(0x06),
        Key::Num6 => Some(0x07),
        Key::Num7 => Some(0x08),
        Key::Num8 => Some(0x09),
        Key::Num9 => Some(0x0A),
        Key::Num0 => Some(0x0B),
        Key::Minus => Some(0x0C),
        Key::Equal => Some(0x0D),
        Key::KeyQ => Some(0x10),
        Key::KeyW => Some(0x11),
        Key::KeyE => Some(0x12),
        Key::KeyR => Some(0x13),
        Key::KeyT => Some(0x14),
        Key::KeyY => Some(0x15),
        Key::KeyU => Some(0x16),
        Key::KeyI => Some(0x17),
        Key::KeyO => Some(0x18),
        Key::KeyP => Some(0x19),
        Key::LeftBracket => Some(0x1A),
        Key::RightBracket => Some(0x1B),
        Key::KeyA => Some(0x1E),
        Key::KeyS => Some(0x1F),
        Key::KeyD => Some(0x20),
        Key::KeyF => Some(0x21),
        Key::KeyG => Some(0x22),
        Key::KeyH => Some(0x23),
        Key::KeyJ => Some(0x24),
        Key::KeyK => Some(0x25),
        Key::KeyL => Some(0x26),
        Key::SemiColon => Some(0x27),
        Key::Quote => Some(0x28),
        Key::BackSlash => Some(0x2B),
        Key::IntlBackslash => Some(0x56),
        Key::KeyZ => Some(0x2C),
        Key::KeyX => Some(0x2D),
        Key::KeyC => Some(0x2E),
        Key::KeyV => Some(0x2F),
        Key::KeyB => Some(0x30),
        Key::KeyN => Some(0x31),
        Key::KeyM => Some(0x32),
        Key::Comma => Some(0x33),
        Key::Dot => Some(0x34),
        Key::Slash => Some(0x35),
        Key::Insert => Some(0xE052),
        Key::KpReturn => Some(0xE01C),
        Key::KpMinus => Some(0x4A),
        Key::KpPlus => Some(0x4E),
        Key::KpMultiply => Some(0x37),
        Key::KpDivide => Some(0xE035),
        Key::Kp0 => Some(0x52),
        Key::Kp1 => Some(0x4F),
        Key::Kp2 => Some(0x50),
        Key::Kp3 => Some(0x51),
        Key::Kp4 => Some(0x4B),
        Key::Kp5 => Some(0x4C),
        Key::Kp6 => Some(0x4D),
        Key::Kp7 => Some(0x47),
        Key::Kp8 => Some(0x48),
        Key::Kp9 => Some(0x49),
        Key::KpDelete => Some(0x53),
        Key::VolumeUp => Some(0xE030),
        Key::VolumeDown => Some(0xE02E),
        Key::VolumeMute => Some(0xE020),
        Key::RawKey(raw) => match raw {
            RawKey::ScanCode(code) => Some(code),
            _ => None,
        },
        _ => None,
    }
}

} // verus!
