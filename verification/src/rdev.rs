//! The portable event vocabulary: keys, buttons, events and error types.
//!
//! Scroll amounts are fixed-point: a wheel delta of `d` stands for
//! `d / SCROLL_DENOM` scroll lines.  The denominator is the least common
//! multiple of the scales the native sources use (whole lines from a macOS
//! scroll event, 1/120-line detents from a raw mouse wheel, 1/100-line steps
//! from the touchpad tracker), so every native amount is represented exactly.

use vstd::prelude::*;

verus! {

/// Denominator of fixed-point scroll amounts carried by wheel events.
pub const SCROLL_DENOM: i64 = 600;

/// The extra-data word that marks a programmatically generated event.
/// A cooperating capturer classifies an event carrying it as synthetic.
pub const SYNTHETIC_MARKER: i64 = 100;

/// A mouse button.
#[derive(Clone, Copy, Debug, PartialEq, Eq, Structural)]
pub enum Button {
    Left,
    Right,
    Middle,
    Unknown(u8),
}

/// An escape hatch naming a key by its OS-native identifier.
#[derive(Clone, Copy, Debug, PartialEq, Eq, Structural)]
pub enum RawKey {
    ScanCode(u32),
    WinVirtualKeycode(u32),
    LinuxKeycode(u32),
    MacVirtualKeycode(u16),
}

/// A symbolic key name, portable across the supported platforms.
#[derive(Clone, Copy, Debug, PartialEq, Eq, Structural)]
pub enum Key {
    Alt,
    AltGr,
    Backspace,
    CapsLock,
    ControlLeft,
    ControlRight,
    Delete,
    DownArrow,
    End,
    Escape,
    F1,
    F2,
    F3,
    F4,
    F5,
    F6,
    F7,
    F8,
    F9,
    F10,
    F11,
    F12,
    Home,
    LeftArrow,
    MetaLeft,
    MetaRight,
    PageDown,
    PageUp,
    Return,
    RightArrow,
    ShiftLeft,
    ShiftRight,
    Space,
    Tab,
    UpArrow,
    PrintScreen,
    ScrollLock,
    Pause,
    NumLock,
    BackQuote,
    Num1,
    Num2,
    Num3,
    Num4,
    Num5,
    Num6,
    Num7,
    Num8,
    Num9,
    Num0,
    Minus,
    Equal,
    KeyQ,
    KeyW,
    KeyE,
    KeyR,
    KeyT,
    KeyY,
    KeyU,
    KeyI,
    KeyO,
    KeyP,
    LeftBracket,
    RightBracket,
    KeyA,
    KeyS,
    KeyD,
    KeyF,
    KeyG,
    KeyH,
    KeyJ,
    KeyK,
    KeyL,
    SemiColon,
    Quote,
    BackSlash,
    IntlBackslash,
    KeyZ,
    KeyX,
    KeyC,
    KeyV,
    KeyB,
    KeyN,
    KeyM,
    Comma,
    Dot,
    Slash,
    Insert,
    KpReturn,
    KpMinus,
    KpPlus,
    KpMultiply,
    KpDivide,
    Kp0,
    Kp1,
    Kp2,
    Kp3,
    Kp4,
    Kp5,
    Kp6,
    Kp7,
    Kp8,
    Kp9,
    KpDelete,
    Function,
    VolumeUp,
    VolumeDown,
    VolumeMute,
    Unknown(u32),
    RawKey(RawKey),
}

/// The action an event reports.
///
/// The cooked variants carry post-OS-cooking values (absolute cursor
/// coordinates, accelerated wheel ticks); the raw variants carry
/// pre-acceleration device deltas.  Both may be emitted for one native
/// event; the raw variant always comes first.
#[derive(Clone, Copy, Debug, PartialEq, Eq, Structural)]
pub enum EventType {
    KeyPress(Key),
    KeyRelease(Key),
    ButtonPress(Button),
    ButtonRelease(Button),
    MouseMove { x: i64, y: i64 },
    Wheel { delta_x: i64, delta_y: i64 },
    KeyPressRaw(Key),
    KeyReleaseRaw(Key),
    ButtonPressRaw(Button),
    ButtonReleaseRaw(Button),
    MouseMoveRaw { delta_x: i32, delta_y: i32 },
    WheelRaw { delta_x: i64, delta_y: i64 },
}

impl EventType {
    /// True of the cooked variants, false of the raw ones.
    pub open spec fn is_cooked(self) -> bool {
        match self {
            EventType::KeyPress(_) => true,
            EventType::KeyRelease(_) => true,
            EventType::ButtonPress(_) => true,
            EventType::ButtonRelease(_) => true,
            EventType::MouseMove { .. } => true,
            EventType::Wheel { .. } => true,
            EventType::KeyPressRaw(_) => false,
            EventType::KeyReleaseRaw(_) => false,
            EventType::ButtonPressRaw(_) => false,
            EventType::ButtonReleaseRaw(_) => false,
            EventType::MouseMoveRaw { .. } => false,
            EventType::WheelRaw { .. } => false,
        }
    }
}

/// Composed text attached to a key press: the UTF-16 units the OS produced,
/// their decoded form when they are valid UTF-16, and whether a dead key is
/// in progress.
#[derive(Debug, PartialEq)]
pub struct UnicodeInfo {
    pub name: Option<String>,
    pub unicode: Vec<u16>,
    pub is_dead: bool,
}

/// The mathematical value of a [`UnicodeInfo`].
#[verifier::ext_equal]
pub struct UnicodeView {
    pub name: Option<Seq<char>>,
    pub unicode: Seq<u16>,
    pub is_dead: bool,
}

impl View for UnicodeInfo {
    type V = UnicodeView;

    open spec fn view(&self) -> UnicodeView {
        UnicodeView {
            name: match self.name {
                Some(s) => Some(s@),
                None => None,
            },
            unicode: self.unicode@,
            is_dead: self.is_dead,
        }
    }
}

/// The view of an optional composed-text descriptor.
pub open spec fn opt_unicode_view(u: Option<UnicodeInfo>) -> Option<UnicodeView> {
    match u {
        Some(info) => Some(info@),
        None => None,
    }
}

impl Clone for UnicodeInfo {
    /// A clone carries the same mathematical value.
    fn clone(&self) -> (r: Self)
        ensures
            r@ == self@,
    {
        let name: Option<String> = match &self.name {
            Some(s) => Some(s.clone()),
            None => None,
        };
        let unicode: Vec<u16> = self.unicode.clone();
        proof {
            assert(unicode@ =~= self.unicode@);
        }
        let r = UnicodeInfo { name, unicode, is_dead: self.is_dead };
        proof {
            assert(r@ =~~= self@);
        }
        r
    }
}

/// One observable input action, enriched with its portable identity.
#[derive(Debug, PartialEq)]
pub struct Event {
    pub event_type: EventType,
    /// Caller-supplied timestamp of the observation, in milliseconds.
    pub time: u64,
    /// Composed text; present only on key presses that produced any.
    pub unicode: Option<UnicodeInfo>,
    /// The OS-native keycode (virtual key on Windows, virtual keycode on macOS).
    pub platform_code: u32,
    /// The hardware scancode, when the OS reports one.
    pub position_code: u32,
    /// USB HID usage, when derivable from the position code.
    pub usb_hid: u32,
    /// The OS-provided extra-information word attached to the event.
    pub extra_data: i64,
    /// True if the event was generated programmatically rather than by hardware.
    pub is_synthetic: bool,
}

/// The mathematical value of an [`Event`].
#[verifier::ext_equal]
pub struct EventView {
    pub event_type: EventType,
    pub time: u64,
    pub unicode: Option<UnicodeView>,
    pub platform_code: u32,
    pub position_code: u32,
    pub usb_hid: u32,
    pub extra_data: i64,
    pub is_synthetic: bool,
}

impl View for Event {
    type V = EventView;

    open spec fn view(&self) -> EventView {
        EventView {
            event_type: self.event_type,
            time: self.time,
            unicode: opt_unicode_view(self.unicode),
            platform_code: self.platform_code,
            position_code: self.position_code,
            usb_hid: self.usb_hid,
            extra_data: self.extra_data,
            is_synthetic: self.is_synthetic,
        }
    }
}

/// The views of a sequence of events.
pub open spec fn views_of(events: Seq<Event>) -> Seq<EventView> {
    events.map_values(|e: Event| e@)
}

impl Clone for Event {
    /// A clone carries the same mathematical value.
    fn clone(&self) -> (r: Self)
        ensures
            r@ == self@,
    {
        let unicode: Option<UnicodeInfo> = match &self.unicode {
            Some(u) => Some(u.clone()),
            None => None,
        };
        let r = Event {
            event_type: self.event_type,
            time: self.time,
            unicode,
            platform_code: self.platform_code,
            position_code: self.position_code,
            usb_hid: self.usb_hid,
            extra_data: self.extra_data,
            is_synthetic: self.is_synthetic,
        };
        proof {
            assert(r@ =~~= self@);
        }
        r
    }
}

/// Why installing one of the two Windows hooks failed, with the OS error code.
#[derive(Clone, Copy, Debug, PartialEq, Eq, Structural)]
pub enum HookError {
    Mouse(u32),
    Key(u32),
}

/// Why a listen session could not be started.
#[derive(Clone, Copy, Debug, PartialEq, Eq, Structural)]
pub enum ListenError {
    EventTapError,
    LoopSourceError,
    KeyHookError(u32),
    MouseHookError(u32),
    AlreadyListening,
}

/// Why a grab session could not be started or stopped.
#[derive(Clone, Debug, PartialEq)]
pub enum GrabError {
    EventTapError,
    LoopSourceError,
    KeyHookError(u32),
    MouseHookError(u32),
    AlreadyGrabbing,
    ExitGrabError(String),
}

/// The event cannot be represented as a native event on this OS.
#[derive(Clone, Copy, Debug, PartialEq, Eq, Structural)]
pub struct SimulateError;

/// The primary display could not be queried.
#[derive(Clone, Copy, Debug, PartialEq, Eq, Structural)]
pub struct DisplayError;

} // verus!
