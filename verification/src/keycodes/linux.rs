//! Linux keycodes as an X11 server reports them (evdev code plus eight).

use crate::rdev::{Key, RawKey};
use vstd::prelude::*;

verus! {

/// The platform code the table assigns to a key, if any.
pub open spec fn code_for(key: Key) -> Option<u32> {
    match key {
        Key::Alt => Some(64),
        Key::AltGr => Some(108),
        Key::Backspace => Some(22),
        Key::CapsLock => Some(66),
        Key::ControlLeft => Some(37),
        Key::ControlRight => Some(105),
        Key::Delete => Some(119),
        Key::DownArrow => Some(116),
        Key::End => Some(115),
        Key::Escape => Some(9),
        Key::F1 => Some(67),
        Key::F2 => Some(68),
        Key::F3 => Some(69),
        Key::F4 => Some(70),
        Key::F5 => Some(71),
        Key::F6 => Some(72),
        Key::F7 => Some(73),
        Key::F8 => Some(74),
        Key::F9 => Some(75),
        Key::F10 => Some(76),
        Key::F11 => Some(95),
        Key::F12 => Some(96),
        Key::Home => Some(110),
        Key::LeftArrow => Some(113),
        Key::MetaLeft => Some(133),
        Key::MetaRight => Some(134),
        Key::PageDown => Some(117),
        Key::PageUp => Some(112),
        Key::Return => Some(36),
        Key::RightArrow => Some(114),
        Key::ShiftLeft => Some(50),
        Key::ShiftRight => Some(62),
        Key::Space => Some(65),
        Key::Tab => Some(23),
        Key::UpArrow => Some(111),
        Key::PrintScreen => Some(107),
        Key::ScrollLock => Some(78),
        Key::Pause => Some(127),
        Key::NumLock => Some(77),
        Key::BackQuote => Some(49),
        Key::Num1 => Some(10),
        Key::Num2 => Some(11),
        Key::Num3 => Some(12),
        Key::Num4 => Some(13),
        Key::Num5 => Some(14),
        Key::Num6 => Some(15),
        Key::Num7 => Some(16),
        Key::Num8 => Some(17),
        Key::Num9 => Some(18),
        Key::Num0 => Some(19),
        Key::Minus => Some(20),
        Key::Equal => Some(21),
        Key::KeyQ => Some(24),
        Key::KeyW => Some(25),
        Key::KeyE => Some(26),
        Key::KeyR => Some(27),
        Key::KeyT => Some(28),
        Key::KeyY => Some(29),
        Key::KeyU => Some(30),
        Key::KeyI => Some(31),
        Key::KeyO => Some(32),
        Key::KeyP => Some(33),
        Key::LeftBracket => Some(34),
        Key::RightBracket => Some(35),
        Key::KeyA => Some(38),
        Key::KeyS => Some(39),
        Key::KeyD => Some(40),
        Key::KeyF => Some(41),
        Key::KeyG => Some(42),
        Key::KeyH => Some(43),
        Key::KeyJ => Some(44),
        Key::KeyK => Some(45),
        Key::KeyL => Some(46),
        Key::SemiColon => Some(47),
        Key::Quote => Some(48),
        Key::BackSlash => Some(51),
        Key::IntlBackslash => Some(94),
        Key::KeyZ => Some(52),
        Key::KeyX => Some(53),
        Key::KeyC => Some(54),
        Key::KeyV => Some(55),
        Key::KeyB => Some(56),
        Key::KeyN => Some(57),
        Key::KeyM => Some(58),
        Key::Comma => Some(59),
        Key::Dot => Some(60),
        Key::Slash => Some(61),
        Key::Insert => Some(118),
        Key::KpReturn => Some(104),
        Key::KpMinus => Some(82),
        Key::KpPlus => Some(86),
        Key::KpMultiply => Some(63),
        Key::KpDivide => Some(106),
        Key::Kp0 => Some(90),
        Key::Kp1 => Some(87),
        Key::Kp2 => Some(88),
        Key::Kp3 => Some(89),
        Key::Kp4 => Some(83),
        Key::Kp5 => Some(84),
        Key::Kp6 => Some(85),
        Key::Kp7 => Some(79),
        Key::Kp8 => Some(80),
        Key::Kp9 => Some(81),
        Key::KpDelete => Some(91),
        Key::VolumeUp => Some(123),
        Key::VolumeDown => Some(122),
        Key::VolumeMute => Some(121),
        Key::Unknown(code) => Some(code),
        Key::RawKey(raw) => match raw {
            RawKey::LinuxKeycode(code) => Some(code),
            _ => None,
        },
        _ => None,
    }
}

/// The key the table assigns to a platform code; an unmapped code
/// keeps its numeric identity as `Key::Unknown`.
pub open spec fn key_for(code: u32) -> Key {
    match code {
        64 => Key::Alt,
        108 => Key::AltGr,
        22 => Key::Backspace,
        66 => Key::CapsLock,
        37 => Key::ControlLeft,
        105 => Key::ControlRight,
        119 => Key::Delete,
        116 => Key::DownArrow,
        115 => Key::End,
        9 => Key::Escape,
        67 => Key::F1,
        68 => Key::F2,
        69 => Key::F3,
        70 => Key::F4,
        71 => Key::F5,
        72 => Key::F6,
        73 => Key::F7,
        74 => Key::F8,
        75 => Key::F9,
        76 => Key::F10,
        95 => Key::F11,
        96 => Key::F12,
        110 => Key::Home,
        113 => Key::LeftArrow,
        133 => Key::MetaLeft,
        134 => Key::MetaRight,
        117 => Key::PageDown,
        112 => Key::PageUp,
        36 => Key::Return,
        114 => Key::RightArrow,
        50 => Key::ShiftLeft,
        62 => Key::ShiftRight,
        65 => Key::Space,
        23 => Key::Tab,
        111 => Key::UpArrow,
        107 => Key::PrintScreen,
        78 => Key::ScrollLock,
        127 => Key::Pause,
        77 => Key::NumLock,
        49 => Key::BackQuote,
        10 => Key::Num1,
        11 => Key::Num2,
        12 => Key::Num3,
        13 => Key::Num4,
        14 => Key::Num5,
        15 => Key::Num6,
        16 => Key::Num7,
        17 => Key::Num8,
        18 => Key::Num9,
        19 => Key::Num0,
        20 => Key::Minus,
        21 => Key::Equal,
        24 => Key::KeyQ,
        25 => Key::KeyW,
        26 => Key::KeyE,
        27 => Key::KeyR,
        28 => Key::KeyT,
        29 => Key::KeyY,
        30 => Key::KeyU,
        31 => Key::KeyI,
        32 => Key::KeyO,
        33 => Key::KeyP,
        34 => Key::LeftBracket,
        35 => Key::RightBracket,
        38 => Key::KeyA,
        39 => Key::KeyS,
        40 => Key::KeyD,
        41 => Key::KeyF,
        42 => Key::KeyG,
        43 => Key::KeyH,
        44 => Key::KeyJ,
        45 => Key::KeyK,
        46 => Key::KeyL,
        47 => Key::SemiColon,
        48 => Key::Quote,
        51 => Key::BackSlash,
        94 => Key::IntlBackslash,
        52 => Key::KeyZ,
        53 => Key::KeyX,
        54 => Key::KeyC,
        55 => Key::KeyV,
        56 => Key::KeyB,
        57 => Key::KeyN,
        58 => Key::KeyM,
        59 => Key::Comma,
        60 => Key::Dot,
        61 => Key::Slash,
        118 => Key::Insert,
        104 => Key::KpReturn,
        82 => Key::KpMinus,
        86 => Key::KpPlus,
        63 => Key::KpMultiply,
        106 => Key::KpDivide,
        90 => Key::Kp0,
        87 => Key::Kp1,
        88 => Key::Kp2,
        89 => Key::Kp3,
        83 => Key::Kp4,
        84 => Key::Kp5,
        85 => Key::Kp6,
        79 => Key::Kp7,
        80 => Key::Kp8,
        81 => Key::Kp9,
        91 => Key::KpDelete,
        123 => Key::VolumeUp,
        122 => Key::VolumeDown,
        121 => Key::VolumeMute,
        _ => Key::Unknown(code),
    }
}

/// Looks a key up in the table.
pub fn code_from_key(key: Key) -> (r: Option<u32>)
    ensures
        r == code_for(key),
{
    match key {
        Key::Alt => Some(64),
        Key::AltGr => Some(108),
        Key::Backspace => Some(22),
        Key::CapsLock => Some(66),
        Key::ControlLeft => Some(37),
        Key::ControlRight => Some(105),
        Key::Delete => Some(119),
        Key::DownArrow => Some(116),
        Key::End => Some(115),
        Key::Escape => Some(9),
        Key::F1 => Some(67),
        Key::F2 => Some(68),
        Key::F3 => Some(69),
        Key::F4 => Some(70),
        Key::F5 => Some(71),
        Key::F6 => Some(72),
        Key::F7 => Some(73),
        Key::F8 => Some(74),
        Key::F9 => Some(75),
        Key::F10 => Some(76),
        Key::F11 => Some(95),
        Key::F12 => Some(96),
        Key::Home => Some(110),
        Key::LeftArrow => Some(113),
        Key::MetaLeft => Some(133),
        Key::MetaRight => Some(134),
        Key::PageDown => Some(117),
        Key::PageUp => Some(112),
        Key::Return => Some(36),
        Key::RightArrow => Some(114),
        Key::ShiftLeft => Some(50),
        Key::ShiftRight => Some(62),
        Key::Space => Some(65),
        Key::Tab => Some(23),
        Key::UpArrow => Some(111),
        Key::PrintScreen => Some(107),
        Key::ScrollLock => Some(78),
        Key::Pause => Some(127),
        Key::NumLock => Some(77),
        Key::BackQuote => Some(49),
        Key::Num1 => Some(10),
        Key::Num2 => Some(11),
        Key::Num3 => Some(12),
        Key::Num4 => Some(13),
        Key::Num5 => Some(14),
        Key::Num6 => Some(15),
        Key::Num7 => Some(16),
        Key::Num8 => Some(17),
        Key::Num9 => Some(18),
        Key::Num0 => Some(19),
        Key::Minus => Some(20),
        Key::Equal => Some(21),
        Key::KeyQ => Some(24),
        Key::KeyW => Some(25),
        Key::KeyE => Some(26),
        Key::KeyR => Some(27),
        Key::KeyT => Some(28),
        Key::KeyY => Some(29),
        Key::KeyU => Some(30),
        Key::KeyI => Some(31),
        Key::KeyO => Some(32),
        Key::KeyP => Some(33),
        Key::LeftBracket => Some(34),
        Key::RightBracket => Some(35),
        Key::KeyA => Some(38),
        Key::KeyS => Some(39),
        Key::KeyD => Some(40),
        Key::KeyF => Some(41),
        Key::KeyG => Some(42),
        Key::KeyH => Some(43),
        Key::KeyJ => Some(44),
        Key::KeyK => Some(45),
        Key::KeyL => Some(46),
        Key::SemiColon => Some(47),
        Key::Quote => Some(48),
        Key::BackSlash => Some(51),
        Key::IntlBackslash => Some(94),
        Key::KeyZ => Some(52),
        Key::KeyX => Some(53),
        Key::KeyC => Some(54),
        Key::KeyV => Some(55),
        Key::KeyB => Some(56),
        Key::KeyN => Some(57),
        Key::KeyM => Some(58),
        Key::Comma => Some(59),
        Key::Dot => Some(60),
        Key::Slash => Some(61),
        Key::Insert => Some(118),
        Key::KpReturn => Some(104),
        Key::KpMinus => Some(82),
        Key::KpPlus => Some(86),
        Key::KpMultiply => Some(63),
        Key::KpDivide => Some(106),
        Key::Kp0 => Some(90),
        Key::Kp1 => Some(87),
        Key::Kp2 => Some(88),
        Key::Kp3 => Some(89),
        Key::Kp4 => Some(83),
        Key::Kp5 => Some(84),
        Key::Kp6 => Some(85),
        Key::Kp7 => Some(79),
        Key::Kp8 => Some(80),
        Key::Kp9 => Some(81),
        Key::KpDelete => Some(91),
        Key::VolumeUp => Some(123),
        Key::VolumeDown => Some(122),
        Key::VolumeMute => Some(121),
        Key::Unknown(code) => Some(code),
        Key::RawKey(raw) => match raw {
            RawKey::LinuxKeycode(code) => Some(code),
            _ => None,
        },
        _ => None,
    }
}

/// Finds the key a platform code names.
pub fn key_from_code(code: u32) -> (r: Key)
    ensures
        r == key_for(code),
{
    match code {
        64 => Key::Alt,
        108 => Key::AltGr,
        22 => Key::Backspace,
        66 => Key::CapsLock,
        37 => Key::ControlLeft,
        105 => Key::ControlRight,
        119 => Key::Delete,
        116 => Key::DownArrow,
        115 => Key::End,
        9 => Key::Escape,
        67 => Key::F1,
        68 => Key::F2,
        69 => Key::F3,
        70 => Key::F4,
        71 => Key::F5,
        72 => Key::F6,
        73 => Key::F7,
        74 => Key::F8,
        75 => Key::F9,
        76 => Key::F10,
        95 => Key::F11,
        96 => Key::F12,
        110 => Key::Home,
        113 => Key::LeftArrow,
        133 => Key::MetaLeft,
        134 => Key::MetaRight,
        117 => Key::PageDown,
        112 => Key::PageUp,
        36 => Key::Return,
        114 => Key::RightArrow,
        50 => Key::ShiftLeft,
        62 => Key::ShiftRight,
        65 => Key::Space,
        23 => Key::Tab,
        111 => Key::UpArrow,
        107 => Key::PrintScreen,
        78 => Key::ScrollLock,
        127 => Key::Pause,
        77 => Key::NumLock,
        49 => Key::BackQuote,
        10 => Key::Num1,
        11 => Key::Num2,
        12 => Key::Num3,
        13 => Key::Num4,
        14 => Key::Num5,
        15 => Key::Num6,
        16 => Key::Num7,
        17 => Key::Num8,
        18 => Key::Num9,
        19 => Key::Num0,
        20 => Key::Minus,
        21 => Key::Equal,
        24 => Key::KeyQ,
        25 => Key::KeyW,
        26 => Key::KeyE,
        27 => Key::KeyR,
        28 => Key::KeyT,
        29 => Key::KeyY,
        30 => Key::KeyU,
        31 => Key::KeyI,
        32 => Key::KeyO,
        33 => Key::KeyP,
        34 => Key::LeftBracket,
        35 => Key::RightBracket,
        38 => Key::KeyA,
        39 => Key::KeyS,
        40 => Key::KeyD,
        41 => Key::KeyF,
        42 => Key::KeyG,
        43 => Key::KeyH,
        44 => Key::KeyJ,
        45 => Key::KeyK,
        46 => Key::KeyL,
        47 => Key::SemiColon,
        48 => Key::Quote,
        51 => Key::BackSlash,
        94 => Key::IntlBackslash,
        52 => Key::KeyZ,
        53 => Key::KeyX,
        54 => Key::KeyC,
        55 => Key::KeyV,
        56 => Key::KeyB,
        57 => Key::KeyN,
        58 => Key::KeyM,
        59 => Key::Comma,
        60 => Key::Dot,
        61 => Key::Slash,
        118 => Key::Insert,
        104 => Key::KpReturn,
        82 => Key::KpMinus,
        86 => Key::KpPlus,
        63 => Key::KpMultiply,
        106 => Key::KpDivide,
        90 => Key::Kp0,
        87 => Key::Kp1,
        88 => Key::Kp2,
        89 => Key::Kp3,
        83 => Key::Kp4,
        84 => Key::Kp5,
        85 => Key::Kp6,
        79 => Key::Kp7,
        80 => Key::Kp8,
        81 => Key::Kp9,
        91 => Key::KpDelete,
        123 => Key::VolumeUp,
        122 => Key::VolumeDown,
        121 => Key::VolumeMute,
        _ => Key::Unknown(code),
    }
}

} // verus!
