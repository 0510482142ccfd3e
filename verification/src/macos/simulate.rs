//! Planning synthesized macOS events.
//!
//! The operating-system shell builds and posts the native event; this
//! module decides, for a portable event, exactly which native event to
//! build — keycode, direction, modifier flags after the sticky-Fn
//! workaround, cursor-relative button, absolute move, or rounded scroll —
//! and which events cannot be represented at all.

use crate::keycodes::macos::{code_for, code_from_key};
use crate::rdev::{Button, EventType, SimulateError, SCROLL_DENOM, SYNTHETIC_MARKER};
use vstd::prelude::*;

verus! {

/// The native flag bits the sticky-Fn workaround strips on key release.
pub const MASK_SECONDARY_FN: u64 = 1u64 << 23;

pub const MASK_NUMERIC_PAD: u64 = 1u64 << 21;

pub const MASK_HELP: u64 = 1u64 << 22;

/// The help keycode, whose release also strips the help flag.
pub const VK_HELP: u16 = 0x72;

/// The keycodes whose release strips only the secondary-Fn flag: the
/// function keys, keypad clear, forward-delete, the navigation block, and
/// the spotlight, application, launchpad and brightness keys.
pub open spec fn strips_fn_flag(code: u16) -> bool {
    code == 0x7A || code == 0x78 || code == 0x63 || code == 0x76 || code == 0x60 || code == 0x61
        || code == 0x62 || code == 0x64 || code == 0x65 || code == 0x6D || code == 0x67 || code
        == 0x6F || code == 0x69 || code == 0x6B || code == 0x71 || code == 0x6A || code == 0x40
        || code == 0x4F || code == 0x50 || code == 0x47 || code == 0x75 || code == 0x73 || code
        == 0x77 || code == 0x79 || code == 0x74 || code == 129 || code == 130 || code == 131
        || code == 144 || code == 145
}

/// The arrow keycodes, whose release strips the secondary-Fn and
/// numeric-pad flags.
pub open spec fn is_arrow(code: u16) -> bool {
    code == 0x7B || code == 0x7C || code == 0x7D || code == 0x7E
}

/// The flags a synthesized key release carries: the current flags with
/// the masks the sticky-Fn workaround strips for this keycode.
pub open spec fn workaround_flags_of(code: u16, flags: u64) -> u64 {
    if strips_fn_flag(code) {
        flags & !MASK_SECONDARY_FN
    } else if is_arrow(code) {
        flags & !(MASK_SECONDARY_FN | MASK_NUMERIC_PAD)
    } else if code == VK_HELP {
        flags & !(MASK_SECONDARY_FN | MASK_HELP)
    } else {
        flags
    }
}

/// Strips the sticky flags a key release must not carry.
pub fn workaround_flags(code: u16, flags: u64) -> (r: u64)
    ensures
        r == workaround_flags_of(code, flags),
{
    match code {
        0x7A | 0x78 | 0x63 | 0x76 | 0x60 | 0x61 | 0x62 | 0x64 | 0x65 | 0x6D | 0x67 | 0x6F | 0x69
            | 0x6B | 0x71 | 0x6A | 0x40 | 0x4F | 0x50 | 0x47 | 0x75 | 0x73 | 0x77 | 0x79 | 0x74
            | 129 | 130 | 131 | 144 | 145 => flags & !MASK_SECONDARY_FN,
        0x7B | 0x7C | 0x7D | 0x7E => flags & !(MASK_SECONDARY_FN | MASK_NUMERIC_PAD),
        VK_HELP => flags & !(MASK_SECONDARY_FN | MASK_HELP),
        _ => flags,
    }
}

/// The native event to build for one portable event.
#[derive(Clone, Copy, Debug, PartialEq, Eq, Structural)]
pub enum NativePlan {
    /// A keyboard event for this keycode, carrying these modifier flags.
    KeyboardEvent { code: u16, down: bool, flags: u64 },
    /// A button event at the current cursor position.
    ButtonAtCursor { button: Button, down: bool },
    /// An absolute cursor move.
    MouseMoveTo { x: i64, y: i64 },
    /// A pixel scroll of these whole native steps.
    WheelScroll { steps_y: i32, steps_x: i32 },
}

/// The fixed-point scroll delta rounded to whole native steps, half away
/// from zero.
pub open spec fn scroll_steps(delta: i64) -> int {
    if delta >= 0 {
        (delta + SCROLL_DENOM / 2) / (SCROLL_DENOM as int)
    } else {
        -(((-delta as int) + SCROLL_DENOM / 2) / (SCROLL_DENOM as int))
    }
}

/// The rounded scroll delta, saturated to the native 32-bit step count.
pub open spec fn scroll_steps_clamped(delta: i64) -> int {
    let steps = scroll_steps(delta);
    if steps > i32::MAX {
        i32::MAX as int
    } else if steps < i32::MIN {
        i32::MIN as int
    } else {
        steps
    }
}

/// Rounds a fixed-point scroll delta to whole native steps, half away
/// from zero, saturating at the 32-bit bounds.
pub fn wheel_steps(delta: i64) -> (r: i32)
    ensures
        r as int == scroll_steps_clamped(delta),
{
    if delta >= 1_288_490_188_500i64 {
        i32::MAX
    } else if delta >= 0 {
        ((delta + 300) / 600) as i32
    } else if delta <= -1_288_490_189_100i64 {
        i32::MIN
    } else {
        (-((-delta + 300) / 600)) as i32
    }
}

/// The native event a portable event stands for, or nothing where the
/// event cannot be represented: raw variants are capture-only, middle and
/// numbered buttons have no synthesis path, and a key the macOS table
/// does not name has no keycode to press.
///
/// A key release carries the current modifier flags with the sticky-Fn
/// workaround applied; a key press carries them unchanged.
pub open spec fn planned(event_type: EventType, last_flags: u64) -> Option<NativePlan> {
    match event_type {
        EventType::KeyPress(key) => match code_for(key) {
            Some(code) => Some(NativePlan::KeyboardEvent { code, down: true, flags: last_flags }),
            None => None,
        },
        EventType::KeyRelease(key) => match code_for(key) {
            Some(code) => Some(
                NativePlan::KeyboardEvent {
                    code,
                    down: false,
                    flags: workaround_flags_of(code, last_flags),
                },
            ),
            None => None,
        },
        EventType::ButtonPress(button) => match button {
            Button::Left => Some(NativePlan::ButtonAtCursor { button: Button::Left, down: true }),
            Button::Right => Some(NativePlan::ButtonAtCursor { button: Button::Right, down: true }),
            _ => None,
        },
        EventType::ButtonRelease(button) => match button {
            Button::Left => Some(NativePlan::ButtonAtCursor { button: Button::Left, down: false }),
            Button::Right => Some(
                NativePlan::ButtonAtCursor { button: Button::Right, down: false },
            ),
            _ => None,
        },
        EventType::MouseMove { x, y } => Some(NativePlan::MouseMoveTo { x, y }),
        EventType::Wheel { delta_x, delta_y } => Some(
            NativePlan::WheelScroll {
                steps_y: scroll_steps_clamped(delta_y) as i32,
                steps_x: scroll_steps_clamped(delta_x) as i32,
            },
        ),
        _ => None,
    }
}

/// Plans the native event for a portable event under the current
/// modifier flags.
pub fn convert_native(event_type: &EventType, last_flags: u64) -> (r: Option<NativePlan>)
    ensures
        r == planned(*event_type, last_flags),
{
    match event_type {
        EventType::KeyPress(key) => match code_from_key(*key) {
            Some(code) => Some(NativePlan::KeyboardEvent { code, down: true, flags: last_flags }),
            None => None,
        },
        EventType::KeyRelease(key) => match code_from_key(*key) {
            Some(code) => Some(
                NativePlan::KeyboardEvent {
                    code,
                    down: false,
                    flags: workaround_flags(code, last_flags),
                },
            ),
            None => None,
        },
        EventType::ButtonPress(button) => match button {
            Button::Left => Some(NativePlan::ButtonAtCursor { button: Button::Left, down: true }),
            Button::Right => Some(NativePlan::ButtonAtCursor { button: Button::Right, down: true }),
            _ => None,
        },
        EventType::ButtonRelease(button) => match button {
            Button::Left => Some(NativePlan::ButtonAtCursor { button: Button::Left, down: false }),
            Button::Right => Some(
                NativePlan::ButtonAtCursor { button: Button::Right, down: false },
            ),
            _ => None,
        },
        EventType::MouseMove { x, y } => Some(NativePlan::MouseMoveTo { x: *x, y: *y }),
        EventType::Wheel { delta_x, delta_y } => Some(
            NativePlan::WheelScroll {
                steps_y: wheel_steps(*delta_y),
                steps_x: wheel_steps(*delta_x),
            },
        ),
        _ => None,
    }
}

/// The process-wide marker words that outgoing events carry.
#[derive(Clone, Copy, Debug, PartialEq, Eq, Structural)]
pub struct SimulateConfig {
    pub mouse_extra: i64,
    pub keyboard_extra: i64,
}

impl SimulateConfig {
    /// Fresh configuration: no marker word set.
    pub fn new() -> (r: SimulateConfig)
        ensures
            r == (SimulateConfig { mouse_extra: 0i64, keyboard_extra: 0i64 }),
    {
        SimulateConfig { mouse_extra: 0, keyboard_extra: 0 }
    }
}

/// Sets the marker word that synthesized mouse events carry.
pub fn set_mouse_extra_info(config: &mut SimulateConfig, extra: i64)
    ensures
        *final(config) == (SimulateConfig { mouse_extra: extra, ..*old(config) }),
{
    config.mouse_extra = extra;
}

/// Sets the marker word that synthesized keyboard events carry.
pub fn set_keyboard_extra_info(config: &mut SimulateConfig, extra: i64)
    ensures
        *final(config) == (SimulateConfig { keyboard_extra: extra, ..*old(config) }),
{
    config.keyboard_extra = extra;
}

/// A planned native event together with the extra-data word to stamp on
/// it before posting.
#[derive(Clone, Copy, Debug, PartialEq, Eq, Structural)]
pub struct PostPlan {
    pub plan: NativePlan,
    pub extra_data: i64,
}

/// The marker word a plan is stamped with: the keyboard word on keyboard
/// events, the mouse word on everything else.
pub open spec fn marker_word(plan: NativePlan, config: SimulateConfig) -> i64 {
    match plan {
        NativePlan::KeyboardEvent { .. } => config.keyboard_extra,
        _ => config.mouse_extra,
    }
}

/// Plans the posting of one portable event: the native event to build and
/// the marker word to stamp on it.  Fails, issuing no plan, exactly on
/// the events that cannot be represented.
pub fn simulate(event_type: &EventType, config: &SimulateConfig, last_flags: u64) -> (r: Result<
    PostPlan,
    SimulateError,
>)
    ensures
        match planned(*event_type, last_flags) {
            Some(plan) => r == Ok::<PostPlan, SimulateError>(
                PostPlan { plan, extra_data: marker_word(plan, *config) },
            ),
            None => r == Err::<PostPlan, SimulateError>(SimulateError),
        },
{
    match convert_native(event_type, last_flags) {
        Some(plan) => {
            let extra_data = match plan {
                NativePlan::KeyboardEvent { .. } => config.keyboard_extra,
                _ => config.mouse_extra,
            };
            Ok(PostPlan { plan, extra_data })
        },
        None => Err(SimulateError),
    }
}

/// A synthesis source bound to one event-source state and one tap
/// location, for repeated posting.
#[derive(Clone, Copy, Debug, PartialEq, Eq, Structural)]
pub struct VirtualInput {
    pub state_id: u32,
    pub tap_loc: u32,
}

impl VirtualInput {
    /// Binds a synthesis source to an event-source state and a tap
    /// location.
    pub fn new(state_id: u32, tap_loc: u32) -> (r: Option<VirtualInput>)
        ensures
            r == Some(VirtualInput { state_id, tap_loc }),
    {
        Some(VirtualInput { state_id, tap_loc })
    }

    /// Plans the posting of one portable event through this source; the
    /// event carries no marker word.
    pub fn simulate(&self, event_type: &EventType, last_flags: u64) -> (r: Result<
        NativePlan,
        SimulateError,
    >)
        ensures
            match planned(*event_type, last_flags) {
                Some(plan) => r == Ok::<NativePlan, SimulateError>(plan),
                None => r == Err::<NativePlan, SimulateError>(SimulateError),
            },
    {
        match convert_native(event_type, last_flags) {
            Some(plan) => Ok(plan),
            None => Err(SimulateError),
        }
    }
}

/// Law: an event posted with its marker word set to the known value is
/// classified as synthetic by the capture decoder, whatever its source
/// state looks like to the observer.
pub proof fn lemma_marked_event_is_synthetic(word: i64, source_differs: bool)
    requires
        word == SYNTHETIC_MARKER,
    ensures
        crate::macos::common::synthetic(source_differs, word),
{
}

/// Law: once the keyboard marker word is configured to the known value,
/// every synthesized key press or release is stamped so that a capturer
/// in the same process classifies it as synthetic.
pub proof fn lemma_simulated_key_is_synthetic(
    event_type: EventType,
    config: SimulateConfig,
    last_flags: u64,
    source_differs: bool,
)
    requires
        config.keyboard_extra == SYNTHETIC_MARKER,
        event_type matches EventType::KeyPress(_) || event_type matches EventType::KeyRelease(_),
    ensures
        planned(event_type, last_flags) matches Some(plan) ==> crate::macos::common::synthetic(
            source_differs,
            marker_word(plan, config),
        ),
{
}

} // verus!
