//! The macOS grab session: lifecycle gating and event suppression.
//!
//! The event tap itself lives in the operating-system shell; this module
//! decides whether a grab may start, tracks the one-session-per-process
//! invariant, and decides from the callback's answers whether the native
//! event is dropped.

use crate::rdev::GrabError;
use vstd::prelude::*;

verus! {

/// The tap-event codes that report the tap was disabled; the shell
/// re-enables the tap and swallows them.
pub const TAP_DISABLED_BY_TIMEOUT: u32 = 0xFFFFFFFE;

pub const TAP_DISABLED_BY_USER_INPUT: u32 = 0xFFFFFFFF;

/// True of the tap-event codes that report the tap was disabled.
pub fn tap_disabled(event_type_code: u32) -> (r: bool)
    ensures
        r == (event_type_code == TAP_DISABLED_BY_TIMEOUT || event_type_code
            == TAP_DISABLED_BY_USER_INPUT),
{
    event_type_code == TAP_DISABLED_BY_TIMEOUT || event_type_code == TAP_DISABLED_BY_USER_INPUT
}

/// The process-wide grab lifecycle: whether a callback was ever
/// registered (it is never unregistered), and whether a session is live.
#[derive(Clone, Copy, Debug, PartialEq, Eq, Structural)]
pub struct GrabSession {
    pub callback_set: bool,
    pub grabbed: bool,
}

impl GrabSession {
    /// The state of a process that never grabbed.
    pub fn new() -> (r: GrabSession)
        ensures
            r == (GrabSession { callback_set: false, grabbed: false }),
    {
        GrabSession { callback_set: false, grabbed: false }
    }
}

/// True while a grab session is live.
pub fn is_grabbed(session: &GrabSession) -> (r: bool)
    ensures
        r == session.grabbed,
{
    session.grabbed
}

/// How a grab request starts.
#[derive(Clone, Debug, PartialEq)]
pub enum GrabStart {
    /// The request is refused with this error.
    Refused(GrabError),
    /// The callback is registered; the shell may install the tap.
    Ready,
}

/// Decides whether a grab may start.
///
/// A second grab — while a session is live, or after one already
/// registered the write-once callback — is refused as already grabbing:
/// this singleton rejects, it is not idempotent.  A missing Accessibility
/// or Input Monitoring permission refuses the request as a tap error —
/// after the callback was registered, which is never undone.
pub fn begin_grab(session: &mut GrabSession, ax_trusted: bool, hid_granted: bool) -> (r: GrabStart)
    ensures
        old(session).grabbed || old(session).callback_set ==> r == GrabStart::Refused(
            GrabError::AlreadyGrabbing,
        ) && *final(session) == *old(session),
        !old(session).grabbed && !old(session).callback_set ==> *final(session) == (GrabSession {
            callback_set: true,
            ..*old(session)
        }) && r == (if ax_trusted && hid_granted {
            GrabStart::Ready
        } else {
            GrabStart::Refused(GrabError::EventTapError)
        }),
{
    if session.grabbed || session.callback_set {
        return GrabStart::Refused(GrabError::AlreadyGrabbing);
    }
    session.callback_set = true;
    if !ax_trusted {
        return GrabStart::Refused(GrabError::EventTapError);
    }
    if !hid_granted {
        return GrabStart::Refused(GrabError::EventTapError);
    }
    GrabStart::Ready
}

/// Marks the session live while the run loop runs, and idle again when it
/// ends or the session is told to exit.
pub fn set_active(session: &mut GrabSession, on: bool)
    ensures
        *final(session) == (GrabSession { grabbed: on, ..*old(session) }),
{
    session.grabbed = on;
}

/// Decides from the callback's answers whether the native event is
/// dropped: it is exactly when the callback returned none for any of the
/// portable events derived from it.
pub fn should_block(returned_none: &Vec<bool>) -> (r: bool)
    ensures
        r == exists|i: int| 0 <= i < returned_none@.len() && returned_none@[i],
{
    let mut idx: usize = 0;
    let mut blocked: bool = false;
    while idx < returned_none.len()
        invariant
            0 <= idx <= returned_none@.len(),
            blocked == exists|i: int| 0 <= i < idx && returned_none@[i],
        decreases returned_none@.len() - idx,
    {
        if returned_none[idx] {
            blocked = true;
        }
        idx = idx + 1;
    }
    blocked
}

/// Law: suppression is monotone.  If one run of answers suppresses the
/// native event, then any run that returns none at least as often — and
/// in particular never trades a none for a some — suppresses it too;
/// answering some of an event never amplifies.
pub proof fn lemma_suppression_monotone(first: Seq<bool>, second: Seq<bool>)
    requires
        first.len() == second.len(),
        forall|i: int| 0 <= i < first.len() && first[i] ==> second[i],
        exists|i: int| 0 <= i < first.len() && first[i],
    ensures
        exists|i: int| 0 <= i < second.len() && second[i],
{
    let i = choose|i: int| 0 <= i < first.len() && first[i];
    assert(second[i]);
}

} // verus!
