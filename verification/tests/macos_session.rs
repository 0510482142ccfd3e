//! The macOS session lifecycle and the grab suppression decision.

use rdev::macos::grab::{
    begin_grab, is_grabbed, set_active, should_block, tap_disabled, GrabSession, GrabStart,
    TAP_DISABLED_BY_TIMEOUT, TAP_DISABLED_BY_USER_INPUT,
};
use rdev::macos::listen::{
    begin_listen, listen_event_mask, ListenSession, CG_EVENT_FLAGS_CHANGED, CG_EVENT_KEY_DOWN,
    CG_EVENT_KEY_UP, EVENT_MASK_ALL,
};
use rdev::{GrabError, ListenError};

/// The grab lifecycle: permissions are checked after the callback is
/// registered, and a second grab — while the session is live or after it
/// ended — is refused as already grabbing: this singleton rejects.
#[test]
fn grab_lifecycle_gates() {
    let mut session = GrabSession::new();
    assert!(!is_grabbed(&session));

    assert_eq!(begin_grab(&mut session, true, true), GrabStart::Ready);
    assert!(session.callback_set);

    set_active(&mut session, true);
    assert!(is_grabbed(&session));
    assert_eq!(
        begin_grab(&mut session, true, true),
        GrabStart::Refused(GrabError::AlreadyGrabbing)
    );

    set_active(&mut session, false);
    assert_eq!(
        begin_grab(&mut session, true, true),
        GrabStart::Refused(GrabError::AlreadyGrabbing)
    );
}

/// A missing permission refuses the grab as a tap error.
#[test]
fn grab_needs_permissions() {
    let mut session = GrabSession::new();
    assert_eq!(
        begin_grab(&mut session, false, true),
        GrabStart::Refused(GrabError::EventTapError)
    );

    let mut session = GrabSession::new();
    assert_eq!(
        begin_grab(&mut session, true, false),
        GrabStart::Refused(GrabError::EventTapError)
    );
}

/// The listen gate: permissions after registration, and a second
/// registration refused as already listening.
#[test]
fn listen_lifecycle_gates() {
    let mut session = ListenSession::new();
    assert_eq!(begin_listen(&mut session, false, true), Some(ListenError::EventTapError));
    assert_eq!(
        begin_listen(&mut session, true, true),
        Some(ListenError::AlreadyListening)
    );

    let mut fresh = ListenSession::new();
    assert_eq!(begin_listen(&mut fresh, true, true), None);
}

/// Keyboard-only capture masks exactly the three keyboard events.
#[test]
fn event_masks() {
    let mask = listen_event_mask(true);
    assert_eq!(
        mask,
        (1u64 << CG_EVENT_KEY_DOWN) | (1u64 << CG_EVENT_KEY_UP) | (1u64 << CG_EVENT_FLAGS_CHANGED)
    );
    assert_eq!(listen_event_mask(false), EVENT_MASK_ALL);
}

/// The tap-disabled markers are recognized and swallowed.
#[test]
fn tap_disabled_codes() {
    assert!(tap_disabled(TAP_DISABLED_BY_TIMEOUT));
    assert!(tap_disabled(TAP_DISABLED_BY_USER_INPUT));
    assert!(!tap_disabled(10));
}

/// One native event is blocked exactly when the callback answered none
/// for any of its portable events; answering some never amplifies.
#[test]
fn suppression_decision() {
    assert!(!should_block(&vec![]));
    assert!(!should_block(&vec![false, false]));
    assert!(should_block(&vec![false, true]));
    assert!(should_block(&vec![true, false]));
}
