//! The macOS listen session: lifecycle gating and the tap's event mask.

use crate::rdev::ListenError;
use vstd::prelude::*;

verus! {

/// The tap-event codes of the keyboard events.
pub const CG_EVENT_KEY_DOWN: u32 = 10;

pub const CG_EVENT_KEY_UP: u32 = 11;

pub const CG_EVENT_FLAGS_CHANGED: u32 = 12;

/// The tap mask that selects every event.
pub const EVENT_MASK_ALL: u64 = 0xFFFF_FFFF_FFFF_FFFF;

/// The tap mask a listen session asks for: the three keyboard events in
/// keyboard-only operation, every event otherwise.
pub open spec fn spec_listen_event_mask(keyboard_only: bool) -> u64 {
    if keyboard_only {
        ((1u64 << CG_EVENT_KEY_DOWN) | (1u64 << CG_EVENT_KEY_UP) | (1u64
            << CG_EVENT_FLAGS_CHANGED))
    } else {
        EVENT_MASK_ALL
    }
}

/// Computes the tap mask a listen session asks for.
pub fn listen_event_mask(keyboard_only: bool) -> (r: u64)
    ensures
        r == spec_listen_event_mask(keyboard_only),
{
    if keyboard_only {
        (1u64 << CG_EVENT_KEY_DOWN) | (1u64 << CG_EVENT_KEY_UP) | (1u64 << CG_EVENT_FLAGS_CHANGED)
    } else {
        EVENT_MASK_ALL
    }
}

/// The process-wide listen lifecycle: whether a callback was ever
/// registered (it is never unregistered).
#[derive(Clone, Copy, Debug, PartialEq, Eq, Structural)]
pub struct ListenSession {
    pub callback_set: bool,
}

impl ListenSession {
    /// The state of a process that never listened.
    pub fn new() -> (r: ListenSession)
        ensures
            r == (ListenSession { callback_set: false }),
    {
        ListenSession { callback_set: false }
    }
}

/// Decides whether a listen session may start.
///
/// A second callback registration is refused as already listening.  A
/// missing Accessibility or Input Monitoring permission refuses the
/// request as a tap error — after the callback was registered, which is
/// never undone.  `None` means the shell may install the tap.
pub fn begin_listen(session: &mut ListenSession, ax_trusted: bool, hid_granted: bool) -> (r: Option<
    ListenError,
>)
    ensures
        old(session).callback_set ==> r == Some(ListenError::AlreadyListening) && *final(session)
            == *old(session),
        !old(session).callback_set ==> *final(session) == (ListenSession { callback_set: true })
            && r == (if ax_trusted && hid_granted {
            None::<ListenError>
        } else {
            Some(ListenError::EventTapError)
        }),
{
    if session.callback_set {
        return Some(ListenError::AlreadyListening);
    }
    session.callback_set = true;
    if !ax_trusted {
        return Some(ListenError::EventTapError);
    }
    if !hid_granted {
        return Some(ListenError::EventTapError);
    }
    None
}

} // verus!
