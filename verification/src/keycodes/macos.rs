//! macOS virtual keycodes (the `kVK_*` values of the Carbon headers).

use crate::rdev::{Key, RawKey};
use vstd::prelude::*;

verus! {

/// The platform code the table assigns to a key, if any.
pub open spec fn code_for(key: Key) -> Option<u16> {
    match key {
        Key::Alt => Some(0x3A),
        Key::AltGr => Some(0x3D),
        Key::Backspace => Some(0x33),
        Key::CapsLock => Some(0x39),
        Key::ControlLeft => Some(0x3B),
        Key::ControlRight => Some(0x3E),
        Key::Delete => Some(0x75),
        Key::DownArrow => Some(0x7D),
        Key::End => Some(0x77),
        Key::Escape => Some(0x35),
        Key::F1 => Some(0x7A),
        Key::F2 => Some(0x78),
        Key::F3 => Some(0x63),
        Key::F4 => Some(0x76),
        Key::F5 => Some(0x60),
        Key::F6 => Some(0x61),
        Key::F7 => Some(0x62),
        Key::F8 => Some(0x64),
        Key::F9 => Some(0x65),
        Key::F10 => Some(0x6D),
        Key::F11 => Some(0x67),
        Key::F12 => Some(0x6F),
        Key::Home => Some(0x73),
        Key::LeftArrow => Some(0x7B),
        Key::MetaLeft => Some(0x37),
        Key::MetaRight => Some(0x36),
        Key::PageDown => Some(0x79),
        Key::PageUp => Some(0x74),
        Key::Return => Some(0x24),
        Key::RightArrow => Some(0x7C),
        Key::ShiftLeft => Some(0x38),
        Key::ShiftRight => Some(0x3C),
        Key::Space => Some(0x31),
        Key::Tab => Some(0x30),
        Key::UpArrow => Some(0x7E),
        Key::BackQuote => Some(0x32),
        Key::Num1 => Some(0x12),
        Key::Num2 => Some(0x13),
        Key::Num3 => Some(0x14),
        Key::Num4 => Some(0x15),
        Key::Num5 => Some(0x17),
        Key::Num6 => Some(0x16),
        Key::Num7 => Some(0x1A),
        Key::Num8 => Some(0x1C),
        Key::Num9 => Some(0x19),
        Key::Num0 => Some(0x1D),
        Key::Minus => Some(0x1B),
        Key::Equal => Some(0x18),
        Key::KeyQ => Some(0x0C),
        Key::KeyW => Some(0x0D),
        Key::KeyE => Some(0x0E),
        Key::KeyR => Some(0x0F),
        Key::KeyT => Some(0x11),
        Key::KeyY => Some(0x10),
        Key::KeyU => Some(0x20),
        Key::KeyI => Some(0x22),
        Key::KeyO => Some(0x1F),
        Key::KeyP => Some(0x23),
        Key::LeftBracket => Some(0x21),
        Key::RightBracket => Some(0x1E),
        Key::KeyA => Some(0x00),
        Key::KeyS => Some(0x01),
        Key::KeyD => Some(0x02),
        Key::KeyF => Some(0x03),
        Key::KeyG => Some(0x05),
        Key::KeyH => Some(0x04),
        Key::KeyJ => Some(0x26),
        Key::KeyK => Some(0x28),
        Key::KeyL => Some(0x25),
        Key::SemiColon => Some(0x29),
        Key::Quote => Some(0x27),
        Key::BackSlash => Some(0x2A),
        Key::IntlBackslash => Some(0x0A),
        Key::KeyZ => Some(0x06),
        Key::KeyX => Some(0x07),
        Key::KeyC => Some(0x08),
        Key::KeyV => Some(0x09),
        Key::KeyB => Some(0x0B),
        Key::KeyN => Some(0x2D),
        Key::KeyM => Some(0x2E),
        Key::Comma => Some(0x2B),
        Key::Dot => Some(0x2F),
        Key::Slash => Some(0x2C),
        Key::KpReturn => Some(0x4C),
        Key::KpMinus => Some(0x4E),
        Key::KpPlus => Some(0x45),
        Key::KpMultiply => Some(0x43),
        Key::KpDivide => Some(0x4B),
        Key::Kp0 => Some(0x52),
        Key::Kp1 => Some(0x53),
        Key::Kp2 => Some(0x54),
        Key::Kp3 => Some(0x55),
        Key::Kp4 => Some(0x56),
        Key::Kp5 => Some(0x57),
        Key::Kp6 => Some(0x58),
        Key::Kp7 => Some(0x59),
        Key::Kp8 => Some(0x5B),
        Key::Kp9 => Some(0x5C),
        Key::KpDelete => Some(0x41),
        Key::Function => Some(0x3F),
        Key::VolumeUp => Some(0x48),
        Key::VolumeDown => Some(0x49),
        Key::VolumeMute => Some(0x4A),
        Key::Unknown(code) => if code <= 0xFFFF { Some(code as u16) } else { None },
        Key::RawKey(raw) => match raw {
            RawKey::MacVirtualKeycode(code) => Some(code),
            _ => None,
        },
        _ => None,
    }
}

/// The key the table assigns to a platform code; an unmapped code
/// keeps its numeric identity as `Key::Unknown`.
pub open spec fn key_for(code: u16) -> Key {
    match code {
        0x3A => Key::Alt,
        0x3D => Key::AltGr,
        0x33 => Key::Backspace,
        0x39 => Key::CapsLock,
        0x3B => Key::ControlLeft,
        0x3E => Key::ControlRight,
        0x75 => Key::Delete,
        0x7D => Key::DownArrow,
        0x77 => Key::End,
        0x35 => Key::Escape,
        0x7A => Key::F1,
        0x78 => Key::F2,
        0x63 => Key::F3,
        0x76 => Key::F4,
        0x60 => Key::F5,
        0x61 => Key::F6,
        0x62 => Key::F7,
        0x64 => Key::F8,
        0x65 => Key::F9,
        0x6D => Key::F10,
        0x67 => Key::F11,
        0x6F => Key::F12,
        0x73 => Key::Home,
        0x7B => Key::LeftArrow,
        0x37 => Key::MetaLeft,
        0x36 => Key::MetaRight,
        0x79 => Key::PageDown,
        0x74 => Key::PageUp,
        0x24 => Key::Return,
        0x7C => Key::RightArrow,
        0x38 => Key::ShiftLeft,
        0x3C => Key::ShiftRight,
        0x31 => Key::Space,
        0x30 => Key::Tab,
        0x7E => Key::UpArrow,
        0x32 => Key::BackQuote,
        0x12 => Key::Num1,
        0x13 => Key::Num2,
        0x14 => Key::Num3,
        0x15 => Key::Num4,
        0x17 => Key::Num5,
        0x16 => Key::Num6,
        0x1A => Key::Num7,
        0x1C => Key::Num8,
        0x19 => Key::Num9,
        0x1D => Key::Num0,
        0x1B => Key::Minus,
        0x18 => Key::Equal,
        0x0C => Key::KeyQ,
        0x0D => Key::KeyW,
        0x0E => Key::KeyE,
        0x0F => Key::KeyR,
        0x11 => Key::KeyT,
        0x10 => Key::KeyY,
        0x20 => Key::KeyU,
        0x22 => Key::KeyI,
        0x1F => Key::KeyO,
        0x23 => Key::KeyP,
        0x21 => Key::LeftBracket,
        0x1E => Key::RightBracket,
        0x00 => Key::KeyA,
        0x01 => Key::KeyS,
        0x02 => Key::KeyD,
        0x03 => Key::KeyF,
        0x05 => Key::KeyG,
        0x04 => Key::KeyH,
        0x26 => Key::KeyJ,
        0x28 => Key::KeyK,
        0x25 => Key::KeyL,
        0x29 => Key::SemiColon,
        0x27 => Key::Quote,
        0x2A => Key::BackSlash,
        0x0A => Key::IntlBackslash,
        0x06 => Key::KeyZ,
        0x07 => Key::KeyX,
        0x08 => Key::KeyC,
        0x09 => Key::KeyV,
        0x0B => Key::KeyB,
        0x2D => Key::KeyN,
        0x2E => Key::KeyM,
        0x2B => Key::Comma,
        0x2F => Key::Dot,
        0x2C => Key::Slash,
        0x4C => Key::KpReturn,
        0x4E => Key::KpMinus,
        0x45 => Key::KpPlus,
        0x43 => Key::KpMultiply,
        0x4B => Key::KpDivide,
        0x52 => Key::Kp0,
        0x53 => Key::Kp1,
        0x54 => Key::Kp2,
        0x55 => Key::Kp3,
        0x56 => Key::Kp4,
        0x57 => Key::Kp5,
        0x58 => Key::Kp6,
        0x59 => Key::Kp7,
        0x5B => Key::Kp8,
        0x5C => Key::Kp9,
        0x41 => Key::KpDelete,
        0x3F => Key::Function,
        0x48 => Key::VolumeUp,
        0x49 => Key::VolumeDown,
        0x4A => Key::VolumeMute,
        _ => Key::Unknown(code as u32),
    }
}

/// Looks a key up in the table.
pub fn code_from_key(key: Key) -> (r: Option<u16>)
    ensures
        r == code_for(key),
{
    match key {
        Key::Alt => Some(0x3A),
        Key::AltGr => Some(0x3D),
        Key::Backspace => Some(0x33),
        Key::CapsLock => Some(0x39),
        Key::ControlLeft => Some(0x3B),
        Key::ControlRight => Some(0x3E),
        Key::Delete => Some(0x75),
        Key::DownArrow => Some(0x7D),
        Key::End => Some(0x77),
        Key::Escape => Some(0x35),
        Key::F1 => Some(0x7A),
        Key::F2 => Some(0x78),
        Key::F3 => Some(0x63),
        Key::F4 => Some(0x76),
        Key::F5 => Some(0x60),
        Key::F6 => Some(0x61),
        Key::F7 => Some(0x62),
        Key::F8 => Some(0x64),
        Key::F9 => Some(0x65),
        Key::F10 => Some(0x6D),
        Key::F11 => Some(0x67),
        Key::F12 => Some(0x6F),
        Key::Home => Some(0x73),
        Key::LeftArrow => Some(0x7B),
        Key::MetaLeft => Some(0x37),
        Key::MetaRight => Some(0x36),
        Key::PageDown => Some(0x79),
        Key::PageUp => Some(0x74),
        Key::Return => Some(0x24),
        Key::RightArrow => Some(0x7C),
        Key::ShiftLeft => Some(0x38),
        Key::ShiftRight => Some(0x3C),
        Key::Space => Some(0x31),
        Key::Tab => Some(0x30),
        Key::UpArrow => Some(0x7E),
        Key::BackQuote => Some(0x32),
        Key::Num1 => Some(0x12),
        Key::Num2 => Some(0x13),
        Key::Num3 => Some(0x14),
        Key::Num4 => Some(0x15),
        Key::Num5 => Some(0x17),
        Key::Num6 => Some(0x16),
        Key::Num7 => Some(0x1A),
        Key::Num8 => Some(0x1C),
        Key::Num9 => Some(0x19),
        Key::Num0 => Some(0x1D),
        Key::Minus => Some(0x1B),
        Key::Equal => Some(0x18),
        Key::KeyQ => Some(0x0C),
        Key::KeyW => Some(0x0D),
        Key::KeyE => Some(0x0E),
        Key::KeyR => Some(0x0F),
        Key::KeyT => Some(0x11),
        Key::KeyY => Some(0x10),
        Key::KeyU => Some(0x20),
        Key::KeyI => Some(0x22),
        Key::KeyO => Some(0x1F),
        Key::KeyP => Some(0x23),
        Key::LeftBracket => Some(0x21),
        Key::RightBracket => Some(0x1E),
        Key::KeyA => Some(0x00),
        Key::KeyS => Some(0x01),
        Key::KeyD => Some(0x02),
        Key::KeyF => Some(0x03),
        Key::KeyG => Some(0x05),
        Key::KeyH => Some(0x04),
        Key::KeyJ => Some(0x26),
        Key::KeyK => Some(0x28),
        Key::KeyL => Some(0x25),
        Key::SemiColon => Some(0x29),
        Key::Quote => Some(0x27),
        Key::BackSlash => Some(0x2A),
        Key::IntlBackslash => Some(0x0A),
        Key::KeyZ => Some(0x06),
        Key::KeyX => Some(0x07),
        Key::KeyC => Some(0x08),
        Key::KeyV => Some(0x09),
        Key::KeyB => Some(0x0B),
        Key::KeyN => Some(0x2D),
        Key::KeyM => Some(0x2E),
        Key::Comma => Some(0x2B),
        Key::Dot => Some(0x2F),
        Key::Slash => Some(0x2C),
        Key::KpReturn => Some(0x4C),
        Key::KpMinus => Some(0x4E),
        Key::KpPlus => Some(0x45),
        Key::KpMultiply => Some(0x43),
        Key::KpDivide => Some(0x4B),
        Key::Kp0 => Some(0x52),
        Key::Kp1 => Some(0x53),
        Key::Kp2 => Some(0x54),
        Key::Kp3 => Some(0x55),
        Key::Kp4 => Some(0x56),
        Key::Kp5 => Some(0x57),
        Key::Kp6 => Some(0x58),
        Key::Kp7 => Some(0x59),
        Key::Kp8 => Some(0x5B),
        Key::Kp9 => Some(0x5C),
        Key::KpDelete => Some(0x41),
        Key::Function => Some(0x3F),
        Key::VolumeUp => Some(0x48),
        Key::VolumeDown => Some(0x49),
        Key::VolumeMute => Some(0x4A),
        Key::Unknown(code) => if code <= 0xFFFF { Some(code as u16) } else { None },
        Key::RawKey(raw) => match raw {
            RawKey::MacVirtualKeycode(code) => Some(code),
            _ => None,
        },
        _ => None,
    }
}

/// Finds the key a platform code names.
pub fn key_from_code(code: u16) -> (r: Key)
    ensures
        r == key_for(code),
{
    match code {
        0x3A => Key::Alt,
        0x3D => Key::AltGr,
        0x33 => Key::Backspace,
        0x39 => Key::CapsLock,
        0x3B => Key::ControlLeft,
        0x3E => Key::ControlRight,
        0x75 => Key::Delete,
        0x7D => Key::DownArrow,
        0x77 => Key::End,
        0x35 => Key::Escape,
        0x7A => Key::F1,
        0x78 => Key::F2,
        0x63 => Key::F3,
        0x76 => Key::F4,
        0x60 => Key::F5,
        0x61 => Key::F6,
        0x62 => Key::F7,
        0x64 => Key::F8,
        0x65 => Key::F9,
        0x6D => Key::F10,
        0x67 => Key::F11,
        0x6F => Key::F12,
        0x73 => Key::Home,
        0x7B => Key::LeftArrow,
        0x37 => Key::MetaLeft,
        0x36 => Key::MetaRight,
        0x79 => Key::PageDown,
        0x74 => Key::PageUp,
        0x24 => Key::Return,
        0x7C => Key::RightArrow,
        0x38 => Key::ShiftLeft,
        0x3C => Key::ShiftRight,
        0x31 => Key::Space,
        0x30 => Key::Tab,
        0x7E => Key::UpArrow,
        0x32 => Key::BackQuote,
        0x12 => Key::Num1,
        0x13 => Key::Num2,
        0x14 => Key::Num3,
        0x15 => Key::Num4,
        0x17 => Key::Num5,
        0x16 => Key::Num6,
        0x1A => Key::Num7,
        0x1C => Key::Num8,
        0x19 => Key::Num9,
        0x1D => Key::Num0,
        0x1B => Key::Minus,
        0x18 => Key::Equal,
        0x0C => Key::KeyQ,
        0x0D => Key::KeyW,
        0x0E => Key::KeyE,
        0x0F => Key::KeyR,
        0x11 => Key::KeyT,
        0x10 => Key::KeyY,
        0x20 => Key::KeyU,
        0x22 => Key::KeyI,
        0x1F => Key::KeyO,
        0x23 => Key::KeyP,
        0x21 => Key::LeftBracket,
        0x1E => Key::RightBracket,
        0x00 => Key::KeyA,
        0x01 => Key::KeyS,
        0x02 => Key::KeyD,
        0x03 => Key::KeyF,
        0x05 => Key::KeyG,
        0x04 => Key::KeyH,
        0x26 => Key::KeyJ,
        0x28 => Key::KeyK,
        0x25 => Key::KeyL,
        0x29 => Key::SemiColon,
        0x27 => Key::Quote,
        0x2A => Key::BackSlash,
        0x0A => Key::IntlBackslash,
        0x06 => Key::KeyZ,
        0x07 => Key::KeyX,
        0x08 => Key::KeyC,
        0x09 => Key::KeyV,
        0x0B => Key::KeyB,
        0x2D => Key::KeyN,
        0x2E => Key::KeyM,
        0x2B => Key::Comma,
        0x2F => Key::Dot,
        0x2C => Key::Slash,
        0x4C => Key::KpReturn,
        0x4E => Key::KpMinus,
        0x45 => Key::KpPlus,
        0x43 => Key::KpMultiply,
        0x4B => Key::KpDivide,
        0x52 => Key::Kp0,
        0x53 => Key::Kp1,
        0x54 => Key::Kp2,
        0x55 => Key::Kp3,
        0x56 => Key::Kp4,
        0x57 => Key::Kp5,
        0x58 => Key::Kp6,
        0x59 => Key::Kp7,
        0x5B => Key::Kp8,
        0x5C => Key::Kp9,
        0x41 => Key::KpDelete,
        0x3F => Key::Function,
        0x48 => Key::VolumeUp,
        0x49 => Key::VolumeDown,
        0x4A => Key::VolumeMute,
        _ => Key::Unknown(code as u32),
    }
}

} // verus!
