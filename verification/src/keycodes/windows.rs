//! Windows virtual-key codes (the `VK_*` values of the Win32 headers).

use crate::rdev::{Key, RawKey};
use vstd::prelude::*;

verus! {

/// The platform code the table assigns to a key, if any.
pub open spec fn code_for(key: Key) -> Option<u32> {
    match key {
        Key::Alt => Some(0xA4),
        Key::AltGr => Some(0xA5),
        Key::Backspace => Some(0x08),
        Key::CapsLock => Some(0x14),
        Key::ControlLeft => Some(0xA2),
        Key::ControlRight => Some(0xA3),
        Key::Delete => Some(0x2E),
        Key::DownArrow => Some(0x28),
        Key::End => Some(0x23),
        Key::Escape => Some(0x1B),
        Key::F1 => Some(0x70),
        Key::F2 => Some(0x71),
        Key::F3 => Some(0x72),
        Key::F4 => Some(0x73),
        Key::F5 => Some(0x74),
        Key::F6 => Some(0x75),
        Key::F7 => Some(0x76),
        Key::F8 => Some(0x77),
        Key::F9 => Some(0x78),
        Key::F10 => Some(0x79),
        Key::F11 => Some(0x7A),
        Key::F12 => Some(0x7B),
        Key::Home => Some(0x24),
        Key::LeftArrow => Some(0x25),
        Key::MetaLeft => Some(0x5B),
        Key::MetaRight => Some(0x5C),
        Key::PageDown => Some(0x22),
        Key::PageUp => Some(0x21),
        Key::Return => Some(0x0D),
        Key::RightArrow => Some(0x27),
        Key::ShiftLeft => Some(0xA0),
        Key::ShiftRight => Some(0xA1),
        Key::Space => Some(0x20),
        Key::Tab => Some(0x09),
        Key::UpArrow => Some(0x26),
        Key::PrintScreen => Some(0x2C),
        Key::ScrollLock => Some(0x91),
        Key::Pause => Some(0x13),
        Key::NumLock => Some(0x90),
        Key::BackQuote => Some(0xC0),
        Key::Num1 => Some(0x31),
        Key::Num2 => Some(0x32),
        Key::Num3 => Some(0x33),
        Key::Num4 => Some(0x34),
        Key::Num5 => Some(0x35),
        Key::Num6 => Some(0x36),
        Key::Num7 => Some(0x37),
        Key::Num8 => Some(0x38),
        Key::Num9 => Some(0x39),
        Key::Num0 => Some(0x30),
        Key::Minus => Some(0xBD),
        Key::Equal => Some(0xBB),
        Key::KeyQ => Some(0x51),
        Key::KeyW => Some(0x57),
        Key::KeyE => Some(0x45),
        Key::KeyR => Some(0x52),
        Key::KeyT => Some(0x54),
        Key::KeyY => Some(0x59),
        Key::KeyU => Some(0x55),
        Key::KeyI => Some(0x49),
        Key::KeyO => Some(0x4F),
        Key::KeyP => Some(0x50),
        Key::LeftBracket => Some(0xDB),
        Key::RightBracket => Some(0xDD),
        Key::KeyA => Some(0x41),
        Key::KeyS => Some(0x53),
        Key::KeyD => Some(0x44),
        Key::KeyF => Some(0x46),
        Key::KeyG => Some(0x47),
        Key::KeyH => Some(0x48),
        Key::KeyJ => Some(0x4A),
        Key::KeyK => Some(0x4B),
        Key::KeyL => Some(0x4C),
        Key::SemiColon => Some(0xBA),
        Key::Quote => Some(0xDE),
        Key::BackSlash => Some(0xDC),
        Key::IntlBackslash => Some(0xE2),
        Key::KeyZ => Some(0x5A),
        Key::KeyX => Some(0x58),
        Key::KeyC => Some(0x43),
        Key::KeyV => Some(0x56),
        Key::KeyB => Some(0x42),
        Key::KeyN => Some(0x4E),
        Key::KeyM => Some(0x4D),
        Key::Comma => Some(0xBC),
        Key::Dot => Some(0xBE),
        Key::Slash => Some(0xBF),
        Key::Insert => Some(0x2D),
        Key::KpMinus => Some(0x6D),
        Key::KpPlus => Some(0x6B),
        Key::KpMultiply => Some(0x6A),
        Key::KpDivide => Some(0x6F),
        Key::Kp0 => Some(0x60),
        Key::Kp1 => Some(0x61),
        Key::Kp2 => Some(0x62),
        Key::Kp3 => Some(0x63),
        Key::Kp4 => Some(0x64),
        Key::Kp5 => Some(0x65),
        Key::Kp6 => Some(0x66),
        Key::Kp7 => Some(0x67),
        Key::Kp8 => Some(0x68),
        Key::Kp9 => Some(0x69),
        Key::KpDelete => Some(0x6E),
        Key::VolumeUp => Some(0xAF),
        Key::VolumeDown => Some(0xAE),
        Key::VolumeMute => Some(0xAD),
        Key::Unknown(code) => Some(code),
        Key::RawKey(raw) => match raw {
            RawKey::WinVirtualKeycode(code) => Some(code),
            _ => None,
        },
        _ => None,
    }
}

/// The key the table assigns to a platform code; an unmapped code
/// keeps its numeric identity as `Key::Unknown`.
pub open spec fn key_for(code: u32) -> Key {
    match code {
        0xA4 => Key::Alt,
        0xA5 => Key::AltGr,
        0x08 => Key::Backspace,
        0x14 => Key::CapsLock,
        0xA2 => Key::ControlLeft,
        0xA3 => Key::ControlRight,
        0x2E => Key::Delete,
        0x28 => Key::DownArrow,
        0x23 => Key::End,
        0x1B => Key::Escape,
        0x70 => Key::F1,
        0x71 => Key::F2,
        0x72 => Key::F3,
        0x73 => Key::F4,
        0x74 => Key::F5,
        0x75 => Key::F6,
        0x76 => Key::F7,
        0x77 => Key::F8,
        0x78 => Key::F9,
        0x79 => Key::F10,
        0x7A => Key::F11,
        0x7B => Key::F12,
        0x24 => Key::Home,
        0x25 => Key::LeftArrow,
        0x5B => Key::MetaLeft,
        0x5C => Key::MetaRight,
        0x22 => Key::PageDown,
        0x21 => Key::PageUp,
        0x0D => Key::Return,
        0x27 => Key::RightArrow,
        0xA0 => Key::ShiftLeft,
        0xA1 => Key::ShiftRight,
        0x20 => Key::Space,
        0x09 => Key::Tab,
        0x26 => Key::UpArrow,
        0x2C => Key::PrintScreen,
        0x91 => Key::ScrollLock,
        0x13 => Key::Pause,
        0x90 => Key::NumLock,
        0xC0 => Key::BackQuote,
        0x31 => Key::Num1,
        0x32 => Key::Num2,
        0x33 => Key::Num3,
        0x34 => Key::Num4,
        0x35 => Key::Num5,
        0x36 => Key::Num6,
        0x37 => Key::Num7,
        0x38 => Key::Num8,
        0x39 => Key::Num9,
        0x30 => Key::Num0,
        0xBD => Key::Minus,
        0xBB => Key::Equal,
        0x51 => Key::KeyQ,
        0x57 => Key::KeyW,
        0x45 => Key::KeyE,
        0x52 => Key::KeyR,
        0x54 => Key::KeyT,
        0x59 => Key::KeyY,
        0x55 => Key::KeyU,
        0x49 => Key::KeyI,
        0x4F => Key::KeyO,
        0x50 => Key::KeyP,
        0xDB => Key::LeftBracket,
        0xDD => Key::RightBracket,
        0x41 => Key::KeyA,
        0x53 => Key::KeyS,
        0x44 => Key::KeyD,
        0x46 => Key::KeyF,
        0x47 => Key::KeyG,
        0x48 => Key::KeyH,
        0x4A => Key::KeyJ,
        0x4B => Key::KeyK,
        0x4C => Key::KeyL,
        0xBA => Key::SemiColon,
        0xDE => Key::Quote,
        0xDC => Key::BackSlash,
        0xE2 => Key::IntlBackslash,
        0x5A => Key::KeyZ,
        0x58 => Key::KeyX,
        0x43 => Key::KeyC,
        0x56 => Key::KeyV,
        0x42 => Key::KeyB,
        0x4E => Key::KeyN,
        0x4D => Key::KeyM,
        0xBC => Key::Comma,
        0xBE => Key::Dot,
        0xBF => Key::Slash,
        0x2D => Key::Insert,
        0x6D => Key::KpMinus,
        0x6B => Key::KpPlus,
        0x6A => Key::KpMultiply,
        0x6F => Key::KpDivide,
        0x60 => Key::Kp0,
        0x61 => Key::Kp1,
        0x62 => Key::Kp2,
        0x63 => Key::Kp3,
        0x64 => Key::Kp4,
        0x65 => Key::Kp5,
        0x66 => Key::Kp6,
        0x67 => Key::Kp7,
        0x68 => Key::Kp8,
        0x69 => Key::Kp9,
        0x6E => Key::KpDelete,
        0xAF => Key::VolumeUp,
        0xAE => Key::VolumeDown,
        0xAD => Key::VolumeMute,
        _ => Key::Unknown(code),
    }
}

/// Looks a key up in the table.
pub fn code_from_key(key: Key) -> (r: Option<u32>)
    ensures
        r == code_for(key),
{
    match key {
        Key::Alt => Some(0xA4),
        Key::AltGr => Some(0xA5),
        Key::Backspace => Some(0x08),
        Key::CapsLock => Some(0x14),
        Key::ControlLeft => Some(0xA2),
        Key::ControlRight => Some(0xA3),
        Key::Delete => Some(0x2E),
        Key::DownArrow => Some(0x28),
        Key::End => Some(0x23),
        Key::Escape => Some(0x1B),
        Key::F1 => Some(0x70),
        Key::F2 => Some(0x71),
        Key::F3 => Some(0x72),
        Key::F4 => Some(0x73),
        Key::F5 => Some(0x74),
        Key::F6 => Some(0x75),
        Key::F7 => Some(0x76),
        Key::F8 => Some(0x77),
        Key::F9 => Some(0x78),
        Key::F10 => Some(0x79),
        Key::F11 => Some(0x7A),
        Key::F12 => Some(0x7B),
        Key::Home => Some(0x24),
        Key::LeftArrow => Some(0x25),
        Key::MetaLeft => Some(0x5B),
        Key::MetaRight => Some(0x5C),
        Key::PageDown => Some(0x22),
        Key::PageUp => Some(0x21),
        Key::Return => Some(0x0D),
        Key::RightArrow => Some(0x27),
        Key::ShiftLeft => Some(0xA0),
        Key::ShiftRight => Some(0xA1),
        Key::Space => Some(0x20),
        Key::Tab => Some(0x09),
        Key::UpArrow => Some(0x26),
        Key::PrintScreen => Some(0x2C),
        Key::ScrollLock => Some(0x91),
        Key::Pause => Some(0x13),
        Key::NumLock => Some(0x90),
        Key::BackQuote => Some(0xC0),
        Key::Num1 => Some(0x31),
        Key::Num2 => Some(0x32),
        Key::Num3 => Some(0x33),
        Key::Num4 => Some(0x34),
        Key::Num5 => Some(0x35),
        Key::Num6 => Some(0x36),
        Key::Num7 => Some(0x37),
        Key::Num8 => Some(0x38),
        Key::Num9 => Some(0x39),
        Key::Num0 => Some(0x30),
        Key::Minus => Some(0xBD),
        Key::Equal => Some(0xBB),
        Key::KeyQ => Some(0x51),
        Key::KeyW => Some(0x57),
        Key::KeyE => Some(0x45),
        Key::KeyR => Some(0x52),
        Key::KeyT => Some(0x54),
        Key::KeyY => Some(0x59),
        Key::KeyU => Some(0x55),
        Key::KeyI => Some(0x49),
        Key::KeyO => Some(0x4F),
        Key::KeyP => Some(0x50),
        Key::LeftBracket => Some(0xDB),
        Key::RightBracket => Some(0xDD),
        Key::KeyA => Some(0x41),
        Key::KeyS => Some(0x53),
        Key::KeyD => Some(0x44),
        Key::KeyF => Some(0x46),
        Key::KeyG => Some(0x47),
        Key::KeyH => Some(0x48),
        Key::KeyJ => Some(0x4A),
        Key::KeyK => Some(0x4B),
        Key::KeyL => Some(0x4C),
        Key::SemiColon => Some(0xBA),
        Key::Quote => Some(0xDE),
        Key::BackSlash => Some(0xDC),
        Key::IntlBackslash => Some(0xE2),
        Key::KeyZ => Some(0x5A),
        Key::KeyX => Some(0x58),
        Key::KeyC => Some(0x43),
        Key::KeyV => Some(0x56),
        Key::KeyB => Some(0x42),
        Key::KeyN => Some(0x4E),
        Key::KeyM => Some(0x4D),
        Key::Comma => Some(0xBC),
        Key::Dot => Some(0xBE),
        Key::Slash => Some(0xBF),
        Key::Insert => Some(0x2D),
        Key::KpMinus => Some(0x6D),
        Key::KpPlus => Some(0x6B),
        Key::KpMultiply => Some(0x6A),
        Key::KpDivide => Some(0x6F),
        Key::Kp0 => Some(0x60),
        Key::Kp1 => Some(0x61),
        Key::Kp2 => Some(0x62),
        Key::Kp3 => Some(0x63),
        Key::Kp4 => Some(0x64),
        Key::Kp5 => Some(0x65),
        Key::Kp6 => Some(0x66),
        Key::Kp7 => Some(0x67),
        Key::Kp8 => Some(0x68),
        Key::Kp9 => Some(0x69),
        Key::KpDelete => Some(0x6E),
        Key::VolumeUp => Some(0xAF),
        Key::VolumeDown => Some(0xAE),
        Key::VolumeMute => Some(0xAD),
        Key::Unknown(code) => Some(code),
        Key::RawKey(raw) => match raw {
            RawKey::WinVirtualKeycode(code) => Some(code),
            _ => None,
        },
        _ => None,
    }
}

/// Finds the key a platform code names.
pub fn key_from_code(code: u32) -> (r: Key)
    ensures
        r == key_for(code),
{
    match code {
        0xA4 => Key::Alt,
        0xA5 => Key::AltGr,
        0x08 => Key::Backspace,
        0x14 => Key::CapsLock,
        0xA2 => Key::ControlLeft,
        0xA3 => Key::ControlRight,
        0x2E => Key::Delete,
        0x28 => Key::DownArrow,
        0x23 => Key::End,
        0x1B => Key::Escape,
        0x70 => Key::F1,
        0x71 => Key::F2,
        0x72 => Key::F3,
        0x73 => Key::F4,
        0x74 => Key::F5,
        0x75 => Key::F6,
        0x76 => Key::F7,
        0x77 => Key::F8,
        0x78 => Key::F9,
        0x79 => Key::F10,
        0x7A => Key::F11,
        0x7B => Key::F12,
        0x24 => Key::Home,
        0x25 => Key::LeftArrow,
        0x5B => Key::MetaLeft,
        0x5C => Key::MetaRight,
        0x22 => Key::PageDown,
        0x21 => Key::PageUp,
        0x0D => Key::Return,
        0x27 => Key::RightArrow,
        0xA0 => Key::ShiftLeft,
        0xA1 => Key::ShiftRight,
        0x20 => Key::Space,
        0x09 => Key::Tab,
        0x26 => Key::UpArrow,
        0x2C => Key::PrintScreen,
        0x91 => Key::ScrollLock,
        0x13 => Key::Pause,
        0x90 => Key::NumLock,
        0xC0 => Key::BackQuote,
        0x31 => Key::Num1,
        0x32 => Key::Num2,
        0x33 => Key::Num3,
        0x34 => Key::Num4,
        0x35 => Key::Num5,
        0x36 => Key::Num6,
        0x37 => Key::Num7,
        0x38 => Key::Num8,
        0x39 => Key::Num9,
        0x30 => Key::Num0,
        0xBD => Key::Minus,
        0xBB => Key::Equal,
        0x51 => Key::KeyQ,
        0x57 => Key::KeyW,
        0x45 => Key::KeyE,
        0x52 => Key::KeyR,
        0x54 => Key::KeyT,
        0x59 => Key::KeyY,
        0x55 => Key::KeyU,
        0x49 => Key::KeyI,
        0x4F => Key::KeyO,
        0x50 => Key::KeyP,
        0xDB => Key::LeftBracket,
        0xDD => Key::RightBracket,
        0x41 => Key::KeyA,
        0x53 => Key::KeyS,
        0x44 => Key::KeyD,
        0x46 => Key::KeyF,
        0x47 => Key::KeyG,
        0x48 => Key::KeyH,
        0x4A => Key::KeyJ,
        0x4B => Key::KeyK,
        0x4C => Key::KeyL,
        0xBA => Key::SemiColon,
        0xDE => Key::Quote,
        0xDC => Key::BackSlash,
        0xE2 => Key::IntlBackslash,
        0x5A => Key::KeyZ,
        0x58 => Key::KeyX,
        0x43 => Key::KeyC,
        0x56 => Key::KeyV,
        0x42 => Key::KeyB,
        0x4E => Key::KeyN,
        0x4D => Key::KeyM,
        0xBC => Key::Comma,
        0xBE => Key::Dot,
        0xBF => Key::Slash,
        0x2D => Key::Insert,
        0x6D => Key::KpMinus,
        0x6B => Key::KpPlus,
        0x6A => Key::KpMultiply,
        0x6F => Key::KpDivide,
        0x60 => Key::Kp0,
        0x61 => Key::Kp1,
        0x62 => Key::Kp2,
        0x63 => Key::Kp3,
        0x64 => Key::Kp4,
        0x65 => Key::Kp5,
        0x66 => Key::Kp6,
        0x67 => Key::Kp7,
        0x68 => Key::Kp8,
        0x69 => Key::Kp9,
        0x6E => Key::KpDelete,
        0xAF => Key::VolumeUp,
        0xAE => Key::VolumeDown,
        0xAD => Key::VolumeMute,
        _ => Key::Unknown(code),
    }
}

} // verus!
