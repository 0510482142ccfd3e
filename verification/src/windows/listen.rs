//! Decoding Windows Raw Input: mouse reports, keyboard reports, and the
//! precision-touchpad scroll tracker.
//!
//! The operating-system shell reads the raw-input buffers and the HID
//! parser's usage values; this module decodes the plain values into raw
//! portable events and tracks the two-finger scroll gesture.

use crate::keycodes::windows::{key_for, key_from_code};
use crate::rdev::{
    Button, Event, EventType, EventView, HookError, ListenError, SCROLL_DENOM,
};
use crate::windows::common::WHEEL_DELTA;
use vstd::prelude::*;

verus! {

/// The Raw Input mouse button flags.
pub const RI_MOUSE_LEFT_BUTTON_DOWN: u16 = 0x0001;

pub const RI_MOUSE_LEFT_BUTTON_UP: u16 = 0x0002;

pub const RI_MOUSE_RIGHT_BUTTON_DOWN: u16 = 0x0004;

pub const RI_MOUSE_RIGHT_BUTTON_UP: u16 = 0x0008;

pub const RI_MOUSE_MIDDLE_BUTTON_DOWN: u16 = 0x0010;

pub const RI_MOUSE_MIDDLE_BUTTON_UP: u16 = 0x0020;

pub const RI_MOUSE_WHEEL: u16 = 0x0400;

pub const RI_MOUSE_HWHEEL: u16 = 0x0800;

/// The Raw Input keyboard flag that marks a key release.
pub const RI_KEY_BREAK: u16 = 0x01;

impl From<HookError> for ListenError {
    /// A failed hook install keeps its OS error code.
    fn from(error: HookError) -> Self {
        match error {
            HookError::Mouse(code) => ListenError::MouseHookError(code),
            HookError::Key(code) => ListenError::KeyHookError(code),
        }
    }
}

impl vstd::std_specs::convert::FromSpecImpl<HookError> for ListenError {
    open spec fn obeys_from_spec() -> bool {
        true
    }

    open spec fn from_spec(error: HookError) -> Self {
        match error {
            HookError::Mouse(code) => ListenError::MouseHookError(code),
            HookError::Key(code) => ListenError::KeyHookError(code),
        }
    }
}

/// The process-wide listen lifecycle: whether a callback was ever
/// registered (it is never unregistered).
#[derive(Clone, Copy, Debug, PartialEq, Eq, Structural)]
pub struct ListenSession {
    pub callback_set: bool,
}

impl ListenSession {
    /// The state of a process that never listened.
    pub fn new() -> (r: ListenSession)
        ensures
            r == (ListenSession { callback_set: false }),
    {
        ListenSession { callback_set: false }
    }
}

/// Decides whether a listen session may start: a second callback
/// registration is refused as already listening; `None` means the shell
/// may install the hooks.
pub fn begin_listen(session: &mut ListenSession) -> (r: Option<ListenError>)
    ensures
        old(session).callback_set ==> r == Some(ListenError::AlreadyListening) && *final(session)
            == *old(session),
        !old(session).callback_set ==> r is None && *final(session) == (ListenSession {
            callback_set: true,
        }),
{
    if session.callback_set {
        return Some(ListenError::AlreadyListening);
    }
    session.callback_set = true;
    None
}

/// A wheel datum as fixed-point scroll lines: the button data
/// reinterpreted as a signed detent count, one detent being one line.
pub open spec fn wheel_fixed(button_data: u16) -> i64 {
    ((button_data as i16) * (SCROLL_DENOM / WHEEL_DELTA)) as i64
}

/// The raw portable events one Raw Input mouse report decodes to, in
/// order: button edges, then relative motion, then wheel turns.
pub open spec fn raw_mouse_events(
    button_flags: u16,
    delta_x: i32,
    delta_y: i32,
    button_data: u16,
) -> Seq<EventType> {
    let s = Seq::<EventType>::empty();
    let s = if button_flags & RI_MOUSE_LEFT_BUTTON_DOWN != 0 {
        s.push(EventType::ButtonPressRaw(Button::Left))
    } else {
        s
    };
    let s = if button_flags & RI_MOUSE_LEFT_BUTTON_UP != 0 {
        s.push(EventType::ButtonReleaseRaw(Button::Left))
    } else {
        s
    };
    let s = if button_flags & RI_MOUSE_RIGHT_BUTTON_DOWN != 0 {
        s.push(EventType::ButtonPressRaw(Button::Right))
    } else {
        s
    };
    let s = if button_flags & RI_MOUSE_RIGHT_BUTTON_UP != 0 {
        s.push(EventType::ButtonReleaseRaw(Button::Right))
    } else {
        s
    };
    let s = if button_flags & RI_MOUSE_MIDDLE_BUTTON_DOWN != 0 {
        s.push(EventType::ButtonPressRaw(Button::Middle))
    } else {
        s
    };
    let s = if button_flags & RI_MOUSE_MIDDLE_BUTTON_UP != 0 {
        s.push(EventType::ButtonReleaseRaw(Button::Middle))
    } else {
        s
    };
    let s = if delta_x != 0 || delta_y != 0 {
        s.push(EventType::MouseMoveRaw { delta_x, delta_y })
    } else {
        s
    };
    let s = if button_flags & RI_MOUSE_WHEEL != 0 {
        s.push(EventType::WheelRaw { delta_x: 0i64, delta_y: wheel_fixed(button_data) })
    } else {
        s
    };
    if button_flags & RI_MOUSE_HWHEEL != 0 {
        s.push(EventType::WheelRaw { delta_x: wheel_fixed(button_data), delta_y: 0i64 })
    } else {
        s
    }
}

/// Decodes one Raw Input mouse report into raw portable events.
pub fn decode_raw_mouse(button_flags: u16, delta_x: i32, delta_y: i32, button_data: u16) -> (r: Vec<
    EventType,
>)
    ensures
        r@ == raw_mouse_events(button_flags, delta_x, delta_y, button_data),
{
    let mut events: Vec<EventType> = Vec::new();
    if button_flags & RI_MOUSE_LEFT_BUTTON_DOWN != 0 {
        events.push(EventType::ButtonPressRaw(Button::Left));
    }
    if button_flags & RI_MOUSE_LEFT_BUTTON_UP != 0 {
        events.push(EventType::ButtonReleaseRaw(Button::Left));
    }
    if button_flags & RI_MOUSE_RIGHT_BUTTON_DOWN != 0 {
        events.push(EventType::ButtonPressRaw(Button::Right));
    }
    if button_flags & RI_MOUSE_RIGHT_BUTTON_UP != 0 {
        events.push(EventType::ButtonReleaseRaw(Button::Right));
    }
    if button_flags & RI_MOUSE_MIDDLE_BUTTON_DOWN != 0 {
        events.push(EventType::ButtonPressRaw(Button::Middle));
    }
    if button_flags & RI_MOUSE_MIDDLE_BUTTON_UP != 0 {
        events.push(EventType::ButtonReleaseRaw(Button::Middle));
    }
    if delta_x != 0 || delta_y != 0 {
        events.push(EventType::MouseMoveRaw { delta_x, delta_y });
    }
    let scale: i64 = SCROLL_DENOM / WHEEL_DELTA;
    if button_flags & RI_MOUSE_WHEEL != 0 {
        let detents = button_data as i16;
        events.push(EventType::WheelRaw { delta_x: 0, delta_y: detents as i64 * scale });
    }
    if button_flags & RI_MOUSE_HWHEEL != 0 {
        let detents = button_data as i16;
        events.push(EventType::WheelRaw { delta_x: detents as i64 * scale, delta_y: 0 });
    }
    proof {
        assert(events@ =~= raw_mouse_events(button_flags, delta_x, delta_y, button_data));
    }
    events
}

/// The raw portable event one Raw Input keyboard report decodes to: the
/// break flag tells a release from a press.
pub open spec fn raw_keyboard_event(vkey: u16, flags: u16) -> EventType {
    if flags & RI_KEY_BREAK != 0 {
        EventType::KeyReleaseRaw(key_for(vkey as u32))
    } else {
        EventType::KeyPressRaw(key_for(vkey as u32))
    }
}

/// Decodes one Raw Input keyboard report into its raw portable event.
pub fn decode_raw_keyboard(vkey: u16, flags: u16) -> (r: EventType)
    ensures
        r == raw_keyboard_event(vkey, flags),
{
    let key = key_from_code(vkey as u32);
    if flags & RI_KEY_BREAK != 0 {
        EventType::KeyReleaseRaw(key)
    } else {
        EventType::KeyPressRaw(key)
    }
}

/// Wraps a raw portable event for delivery: Raw Input always comes from
/// hardware, so the event carries no code identities, no extra word, and
/// is never synthetic.
pub fn raw_event(event_type: EventType, time: u64) -> (r: Event)
    ensures
        r@ == (EventView {
            event_type,
            time,
            unicode: None,
            platform_code: 0u32,
            position_code: 0u32,
            usb_hid: 0u32,
            extra_data: 0i64,
            is_synthetic: false,
        }),
{
    Event {
        event_type,
        time,
        unicode: None,
        platform_code: 0,
        position_code: 0,
        usb_hid: 0,
        extra_data: 0,
        is_synthetic: false,
    }
}

/// The byte ranges of the HID reports packed in a raw-input buffer:
/// `count` reports of `size` bytes each, starting at `start`.  Exactly
/// the longest prefix of reports that lies inside the buffer is kept:
/// the result is shorter than `count` only where the next report would
/// already run past the buffer's end.
pub fn report_bounds(start: usize, count: u32, size: u32, buffer_len: usize) -> (r: Vec<
    (usize, usize),
>)
    ensures
        r@.len() <= count,
        forall|i: int|
            0 <= i < r@.len() ==> (#[trigger] r@[i]).0 == start + i * size && r@[i].1 == r@[i].0
                + size && r@[i].1 <= buffer_len,
        size == 0 ==> r@.len() == 0,
        size > 0 && r@.len() < count ==> start + r@.len() * size + size > buffer_len,
{
    let mut bounds: Vec<(usize, usize)> = Vec::new();
    if size == 0 {
        return bounds;
    }
    let mut offset: usize = start;
    let mut index: u32 = 0;
    while index < count
        invariant
            size >= 1,
            bounds@.len() == index,
            index <= count,
            offset == start + index * size,
            forall|i: int|
                0 <= i < bounds@.len() ==> (#[trigger] bounds@[i]).0 == start + i * size
                    && bounds@[i].1 == bounds@[i].0 + size && bounds@[i].1 <= buffer_len,
        decreases count - index,
    {
        if offset > buffer_len || buffer_len - offset < size as usize {
            return bounds;
        }
        bounds.push((offset, offset + size as usize));
        proof {
            assert((index + 1) * size == index * size + size) by (nonlinear_arith);
        }
        offset = offset + size as usize;
        index = index + 1;
    }
    bounds
}

/// The two-finger scroll tracker: whether a gesture is in progress, the
/// last finger position, and the last contact count seen.
#[derive(Clone, Copy, Debug, PartialEq, Eq, Structural)]
pub struct TouchpadState {
    pub active: bool,
    pub last_x: i32,
    pub last_y: i32,
    pub last_contact_count: u32,
}

impl TouchpadState {
    /// No gesture seen yet.
    pub fn new() -> (r: TouchpadState)
        ensures
            r == (TouchpadState { active: false, last_x: 0i32, last_y: 0i32, last_contact_count: 0u32 }),
    {
        TouchpadState { active: false, last_x: 0, last_y: 0, last_contact_count: 0 }
    }
}

/// One touchpad HID report, reduced to the usage values the tracker
/// reads and whether each could be extracted.
#[derive(Clone, Copy, Debug, PartialEq, Eq, Structural)]
pub struct TouchReport {
    pub contact_ok: bool,
    pub contact_count: u32,
    pub x_ok: bool,
    pub x: i32,
    pub y_ok: bool,
    pub y: i32,
}

/// The tracker state after one report (see `parse_touchpad`).
pub open spec fn touch_next_state(state: TouchpadState, report: TouchReport) -> TouchpadState {
    if !report.contact_ok {
        if state.active {
            TouchpadState { active: false, last_contact_count: 0u32, ..state }
        } else {
            state
        }
    } else if report.contact_count != 2 {
        let cleared = if report.contact_count == 0 && state.active {
            TouchpadState { active: false, last_contact_count: 0u32, ..state }
        } else {
            state
        };
        TouchpadState { last_contact_count: report.contact_count, ..cleared }
    } else if !report.x_ok || !report.y_ok {
        state
    } else {
        TouchpadState {
            active: true,
            last_x: report.x,
            last_y: report.y,
            last_contact_count: 2u32,
        }
    }
}

/// The scroll the tracker reports for one report (see `parse_touchpad`):
/// fixed-point line deltas, finger motion scaled by one line per hundred
/// device units, vertical motion inverted for natural scrolling.
pub open spec fn touch_output(state: TouchpadState, report: TouchReport) -> Option<(i64, i64)> {
    if !report.contact_ok || report.contact_count != 2 || !report.x_ok || !report.y_ok {
        None
    } else if state.active && state.last_contact_count == 2 {
        let dx = report.x - state.last_x;
        let dy = report.y - state.last_y;
        if dx > 5 || dx < -5 || dy > 5 || dy < -5 {
            Some(((dx * (SCROLL_DENOM / 100)) as i64, (-dy * (SCROLL_DENOM / 100)) as i64))
        } else {
            None
        }
    } else {
        None
    }
}

/// Tracks one touchpad report.
///
/// A report without a contact count ends any gesture.  A contact count
/// other than two ends the gesture and is remembered.  A two-finger
/// report whose coordinates cannot be read changes nothing.  A two-finger
/// report within a gesture reports the finger motion as a scroll once it
/// exceeds the noise threshold of five device units; the first two-finger
/// report only starts the gesture.
pub fn parse_touchpad(state: &mut TouchpadState, report: &TouchReport) -> (r: Option<(i64, i64)>)
    ensures
        *final(state) == touch_next_state(*old(state), *report),
        r == touch_output(*old(state), *report),
{
    if !report.contact_ok {
        if state.active {
            state.active = false;
            state.last_contact_count = 0;
        }
        return None;
    }
    if report.contact_count != 2 {
        if report.contact_count == 0 && state.active {
            state.active = false;
            state.last_contact_count = 0;
        }
        state.last_contact_count = report.contact_count;
        return None;
    }
    if !report.x_ok || !report.y_ok {
        return None;
    }
    let was_active = state.active;
    let was_count = state.last_contact_count;
    let last_x = state.last_x;
    let last_y = state.last_y;
    state.active = true;
    state.last_x = report.x;
    state.last_y = report.y;
    state.last_contact_count = 2;
    if was_active && was_count == 2 {
        let dx: i64 = report.x as i64 - last_x as i64;
        let dy: i64 = report.y as i64 - last_y as i64;
        if dx > 5 || dx < -5 || dy > 5 || dy < -5 {
            return Some((dx * (SCROLL_DENOM / 100), -dy * (SCROLL_DENOM / 100)));
        }
    }
    None
}

} // verus!
