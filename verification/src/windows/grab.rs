//! The Windows grab session: hook lifecycle, feature toggles, and the
//! per-event suppression decision.
//!
//! The hooks, the message pump and the hidden Raw Input window live in
//! the operating-system shell; this module tracks the one-session
//! invariant keyed by the recorded hook thread, decides how a grab
//! request starts and ends, and decides from the callback's answer
//! whether the hook swallows the native event.

use crate::rdev::{Event, EventType, GrabError, HookError};
use vstd::prelude::*;

verus! {

/// The private pump message that tells the hook thread to unhook and
/// quit: the first user message slot above `WM_USER`.
pub const WM_USER_EXIT_HOOK: u32 = 0x400 + 1;

/// The hook's feature toggles: whether a key press is enriched with the
/// text the OS would produce, and whether translating it may open the
/// system's character popup.
#[derive(Clone, Copy, Debug, PartialEq, Eq, Structural)]
pub struct HookConfig {
    pub get_key_unicode: bool,
    pub event_popup: bool,
}

impl HookConfig {
    /// The defaults: key presses are enriched and the popup is allowed.
    pub fn new() -> (r: HookConfig)
        ensures
            r == (HookConfig { get_key_unicode: true, event_popup: true }),
    {
        HookConfig { get_key_unicode: true, event_popup: true }
    }
}

/// Turns the per-key-press text lookup on or off.
pub fn set_get_key_unicode(config: &mut HookConfig, b: bool)
    ensures
        *final(config) == (HookConfig { get_key_unicode: b, ..*old(config) }),
{
    config.get_key_unicode = b;
}

/// Allows or forbids the character popup during the text lookup.
pub fn set_event_popup(config: &mut HookConfig, b: bool)
    ensures
        *final(config) == (HookConfig { event_popup: b, ..*old(config) }),
{
    config.event_popup = b;
}

/// Decides whether a hook invocation looks the produced text up: only
/// for a cooked key press, and only while the toggle is on.
pub fn unicode_wanted(config: &HookConfig, event_type: &EventType) -> (r: bool)
    ensures
        r == (config.get_key_unicode && event_type matches EventType::KeyPress(_)),
{
    config.get_key_unicode && match event_type {
        EventType::KeyPress(_) => true,
        _ => false,
    }
}

/// The process-wide grab lifecycle: the pump thread of the live session
/// (zero while none is live), and whether a callback was ever registered
/// (it is never unregistered).
#[derive(Clone, Copy, Debug, PartialEq, Eq, Structural)]
pub struct GrabState {
    pub hook_thread_id: u32,
    pub callback_set: bool,
}

impl GrabState {
    /// The state of a process that never grabbed.
    pub fn new() -> (r: GrabState)
        ensures
            r == (GrabState { hook_thread_id: 0u32, callback_set: false }),
    {
        GrabState { hook_thread_id: 0, callback_set: false }
    }
}

/// True while a grab session is live.
pub fn is_grabbed(state: &GrabState) -> (r: bool)
    ensures
        r == (state.hook_thread_id != 0),
{
    state.hook_thread_id != 0
}

/// How a hook request starts.
#[derive(Clone, Debug, PartialEq)]
pub enum HookGate {
    /// A session is already live; the request succeeds without hooking
    /// again.
    AlreadyHooked,
    /// The request is refused with this error.
    Refused(GrabError),
    /// The callback is registered; the shell may install the hooks.
    Proceed,
}

/// Decides whether the hooks may be installed.
///
/// A live session is accepted idempotently.  A second callback
/// registration is refused as already grabbing.  Otherwise the callback
/// is registered, which is never undone.
pub fn hook_gate(state: &mut GrabState) -> (r: HookGate)
    ensures
        old(state).hook_thread_id != 0 ==> r == HookGate::AlreadyHooked && *final(state) == *old(
            state,
        ),
        old(state).hook_thread_id == 0 && old(state).callback_set ==> r == HookGate::Refused(
            GrabError::AlreadyGrabbing,
        ) && *final(state) == *old(state),
        old(state).hook_thread_id == 0 && !old(state).callback_set ==> r == HookGate::Proceed
            && *final(state) == (GrabState { callback_set: true, ..*old(state) }),
{
    if state.hook_thread_id != 0 {
        return HookGate::AlreadyHooked;
    }
    if state.callback_set {
        return HookGate::Refused(GrabError::AlreadyGrabbing);
    }
    state.callback_set = true;
    HookGate::Proceed
}

/// Records the pump thread of the freshly hooked session.
pub fn record_hook_thread(state: &mut GrabState, thread_id: u32)
    ensures
        *final(state) == (GrabState { hook_thread_id: thread_id, ..*old(state) }),
{
    state.hook_thread_id = thread_id;
}

/// Marks the session over once the pump has unhooked.
pub fn clear_hook_thread(state: &mut GrabState)
    ensures
        *final(state) == (GrabState { hook_thread_id: 0u32, ..*old(state) }),
{
    state.hook_thread_id = 0;
}

/// How a grab session is asked to end: whether a quit message must be
/// posted, and to which thread.
#[derive(Clone, Copy, Debug, PartialEq, Eq, Structural)]
pub struct ExitPlan {
    pub post_quit: bool,
    pub thread_id: u32,
}

/// Plans the teardown of the session: a quit message goes to the
/// recorded pump thread exactly while one is recorded.
pub fn exit_grab_plan(state: &GrabState) -> (r: ExitPlan)
    ensures
        r == (ExitPlan { post_quit: state.hook_thread_id != 0, thread_id: state.hook_thread_id }),
{
    ExitPlan { post_quit: state.hook_thread_id != 0, thread_id: state.hook_thread_id }
}

/// Decides whether the hook swallows the native event: exactly when the
/// callback answered none.
pub fn suppress_event(callback_result: &Option<Event>) -> (r: bool)
    ensures
        r == (callback_result is None),
{
    match callback_result {
        Some(_) => false,
        None => true,
    }
}

impl From<HookError> for GrabError {
    /// A failed hook install keeps its OS error code.
    fn from(error: HookError) -> Self {
        match error {
            HookError::Mouse(code) => GrabError::MouseHookError(code),
            HookError::Key(code) => GrabError::KeyHookError(code),
        }
    }
}

impl vstd::std_specs::convert::FromSpecImpl<HookError> for GrabError {
    open spec fn obeys_from_spec() -> bool {
        true
    }

    open spec fn from_spec(error: HookError) -> Self {
        match error {
            HookError::Mouse(code) => GrabError::MouseHookError(code),
            HookError::Key(code) => GrabError::KeyHookError(code),
        }
    }
}

} // verus!
