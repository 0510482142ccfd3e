//! Portable low-level input events: a verified model of capture and synthesis.

pub mod dispatch;
pub mod keycodes;
pub mod macos;
mod rdev;
pub mod windows;

pub use crate::keycodes::{linux_keycode_from_key, macos_keycode_from_key, win_scancode_from_key};
pub use crate::rdev::{
    Button, DisplayError, Event, EventType, GrabError, HookError, Key, ListenError, RawKey,
    SimulateError, UnicodeInfo, SCROLL_DENOM, SYNTHETIC_MARKER,
};
pub use crate::rdev::{opt_unicode_view, views_of, EventView, UnicodeView};
