//! Windows Raw Input decoding, the touchpad tracker, and the hook
//! session machinery.

use rdev::windows::common::{hook_event, WHEEL_DELTA};
use rdev::windows::grab::{
    clear_hook_thread, exit_grab_plan, hook_gate, is_grabbed, record_hook_thread,
    set_event_popup, set_get_key_unicode, suppress_event, unicode_wanted, ExitPlan, GrabState,
    HookConfig, HookGate, WM_USER_EXIT_HOOK,
};
use rdev::windows::listen::{
    begin_listen, decode_raw_keyboard, decode_raw_mouse, parse_touchpad, raw_event,
    report_bounds, ListenSession, TouchReport, TouchpadState, RI_KEY_BREAK, RI_MOUSE_HWHEEL,
    RI_MOUSE_LEFT_BUTTON_DOWN, RI_MOUSE_MIDDLE_BUTTON_UP, RI_MOUSE_WHEEL,
};
use rdev::{
    Button, EventType, GrabError, HookError, Key, ListenError, SCROLL_DENOM,
};

fn two_fingers(x: i32, y: i32) -> TouchReport {
    TouchReport { contact_ok: true, contact_count: 2, x_ok: true, x, y_ok: true, y }
}

/// Two consecutive two-finger reports moving twenty device units down
/// yield exactly one raw wheel of minus one fifth of a line.
#[test]
fn touchpad_two_finger_scroll() {
    let mut state = TouchpadState::new();
    let mut wheels: Vec<(i64, i64)> = Vec::new();

    if let Some(delta) = parse_touchpad(&mut state, &two_fingers(500, 500)) {
        wheels.push(delta);
    }
    if let Some(delta) = parse_touchpad(&mut state, &two_fingers(500, 520)) {
        wheels.push(delta);
    }

    assert_eq!(wheels, vec![(0, -120)]);
    let (dx, dy) = wheels[0];
    assert_eq!(dx as f64 / SCROLL_DENOM as f64, 0.0);
    assert_eq!(dy as f64 / SCROLL_DENOM as f64, -0.20);
}

/// Motion at or under five device units is noise and reports nothing.
#[test]
fn touchpad_noise_threshold() {
    let mut state = TouchpadState::new();
    assert!(parse_touchpad(&mut state, &two_fingers(100, 100)).is_none());
    assert!(parse_touchpad(&mut state, &two_fingers(105, 96)).is_none());
    assert_eq!(
        parse_touchpad(&mut state, &two_fingers(111, 96)),
        Some((6 * (SCROLL_DENOM / 100), 0))
    );
}

/// Any contact count other than two ends the gesture; the next
/// two-finger report only re-primes it.
#[test]
fn touchpad_contact_reset() {
    let mut state = TouchpadState::new();
    assert!(parse_touchpad(&mut state, &two_fingers(500, 500)).is_none());

    let lifted = TouchReport { contact_ok: true, contact_count: 0, x_ok: true, x: 500, y_ok: true, y: 500 };
    assert!(parse_touchpad(&mut state, &lifted).is_none());
    assert!(!state.active);

    assert!(parse_touchpad(&mut state, &two_fingers(500, 560)).is_none());
    assert!(parse_touchpad(&mut state, &two_fingers(500, 580)).is_some());

    let unreadable = TouchReport { contact_ok: false, contact_count: 0, x_ok: false, x: 0, y_ok: false, y: 0 };
    assert!(parse_touchpad(&mut state, &unreadable).is_none());
    assert!(!state.active);
}

/// A raw mouse report decodes buttons, motion and wheels in order, the
/// wheel in fixed-point detents.
#[test]
fn raw_mouse_decoding() {
    let events = decode_raw_mouse(RI_MOUSE_LEFT_BUTTON_DOWN | RI_MOUSE_MIDDLE_BUTTON_UP, 7, -3, 0);
    assert_eq!(
        events,
        vec![
            EventType::ButtonPressRaw(Button::Left),
            EventType::ButtonReleaseRaw(Button::Middle),
            EventType::MouseMoveRaw { delta_x: 7, delta_y: -3 },
        ]
    );

    let wheel = decode_raw_mouse(RI_MOUSE_WHEEL, 0, 0, 120);
    assert_eq!(wheel, vec![EventType::WheelRaw { delta_x: 0, delta_y: SCROLL_DENOM }]);

    // A negative detent count arrives as the two's-complement word.
    let back = decode_raw_mouse(RI_MOUSE_WHEEL, 0, 0, (-120i16) as u16);
    assert_eq!(back, vec![EventType::WheelRaw { delta_x: 0, delta_y: -SCROLL_DENOM }]);

    let hwheel = decode_raw_mouse(RI_MOUSE_HWHEEL, 0, 0, 240);
    assert_eq!(
        hwheel,
        vec![EventType::WheelRaw { delta_x: 2 * SCROLL_DENOM, delta_y: 0 }]
    );
    assert_eq!(240 / WHEEL_DELTA, 2);

    assert!(decode_raw_mouse(0, 0, 0, 0).is_empty());
}

/// A raw keyboard report decodes by the break flag.
#[test]
fn raw_keyboard_decoding() {
    assert_eq!(decode_raw_keyboard(0x42, 0), EventType::KeyPressRaw(Key::KeyB));
    assert_eq!(
        decode_raw_keyboard(0x42, RI_KEY_BREAK),
        EventType::KeyReleaseRaw(Key::KeyB)
    );
}

/// A raw event carries no identities and is never synthetic.
#[test]
fn raw_event_wrapping() {
    let ev = raw_event(EventType::KeyPressRaw(Key::KeyB), 11);
    assert_eq!(ev.event_type, EventType::KeyPressRaw(Key::KeyB));
    assert_eq!(ev.time, 11);
    assert_eq!(ev.platform_code, 0);
    assert_eq!(ev.extra_data, 0);
    assert!(!ev.is_synthetic);
    assert!(ev.unicode.is_none());
}

/// Report slicing stays inside the buffer.
#[test]
fn report_slicing() {
    assert_eq!(report_bounds(24, 3, 8, 48), vec![(24, 32), (32, 40), (40, 48)]);
    assert_eq!(report_bounds(24, 3, 8, 41), vec![(24, 32), (32, 40)]);
    assert!(report_bounds(24, 3, 8, 10).is_empty());
    assert!(report_bounds(0, 5, 0, 100).is_empty());
}

/// A hook event keeps the decoded native identities.
#[test]
fn hook_event_assembly() {
    let ev = hook_event(EventType::KeyPress(Key::KeyA), 3, None, 0x41, 0x1E, 100, true);
    assert_eq!(ev.platform_code, 0x41);
    assert_eq!(ev.position_code, 0x1E);
    assert_eq!(ev.usb_hid, 0);
    assert_eq!(ev.extra_data, 100);
    assert!(ev.is_synthetic);
}

/// In grab mode the hook swallows exactly the events the callback
/// answered none for: a grab of the A key blocks its presses and passes
/// everything else.
#[test]
fn grab_suppression() {
    let block_key_a = |ev: rdev::Event| -> Option<rdev::Event> {
        if ev.event_type == EventType::KeyPress(Key::KeyA) {
            None
        } else {
            Some(ev)
        }
    };

    let pressed_a = hook_event(EventType::KeyPress(Key::KeyA), 0, None, 0x41, 0x1E, 0, false);
    assert!(suppress_event(&block_key_a(pressed_a)));

    let pressed_b = hook_event(EventType::KeyPress(Key::KeyB), 0, None, 0x42, 0x30, 0, false);
    assert!(!suppress_event(&block_key_a(pressed_b)));
}

/// The text lookup runs only for cooked key presses while the toggle is
/// on.
#[test]
fn hook_config_toggles() {
    let mut config = HookConfig::new();
    assert!(config.get_key_unicode);
    assert!(unicode_wanted(&config, &EventType::KeyPress(Key::KeyA)));
    assert!(!unicode_wanted(&config, &EventType::KeyRelease(Key::KeyA)));
    assert!(!unicode_wanted(&config, &EventType::KeyPressRaw(Key::KeyA)));

    set_get_key_unicode(&mut config, false);
    assert!(!unicode_wanted(&config, &EventType::KeyPress(Key::KeyA)));

    set_event_popup(&mut config, false);
    assert!(!config.event_popup);
}

/// The grab lifecycle: first hook proceeds, a live session is accepted
/// idempotently, a second callback is refused, and teardown posts to the
/// recorded thread.
#[test]
fn grab_lifecycle() {
    let mut state = GrabState::new();
    assert!(!is_grabbed(&state));
    assert_eq!(exit_grab_plan(&state), ExitPlan { post_quit: false, thread_id: 0 });

    assert_eq!(hook_gate(&mut state), HookGate::Proceed);
    record_hook_thread(&mut state, 41);
    assert!(is_grabbed(&state));

    assert_eq!(hook_gate(&mut state), HookGate::AlreadyHooked);

    let plan = exit_grab_plan(&state);
    assert_eq!(plan, ExitPlan { post_quit: true, thread_id: 41 });
    assert_ne!(WM_USER_EXIT_HOOK, 0x400);
    clear_hook_thread(&mut state);
    assert!(!is_grabbed(&state));

    // The callback container is never cleared: a new grab is refused.
    assert_eq!(
        hook_gate(&mut state),
        HookGate::Refused(GrabError::AlreadyGrabbing)
    );
}

/// A second listen registration is refused as already listening.
#[test]
fn listen_lifecycle() {
    let mut session = ListenSession::new();
    assert!(begin_listen(&mut session).is_none());
    assert_eq!(begin_listen(&mut session), Some(ListenError::AlreadyListening));
}

/// A failed hook install keeps its OS error code through the error
/// conversions.
#[test]
fn hook_error_conversions() {
    assert_eq!(ListenError::from(HookError::Key(5)), ListenError::KeyHookError(5));
    assert_eq!(ListenError::from(HookError::Mouse(6)), ListenError::MouseHookError(6));
    assert_eq!(GrabError::from(HookError::Key(7)), GrabError::KeyHookError(7));
    assert_eq!(GrabError::from(HookError::Mouse(8)), GrabError::MouseHookError(8));
}
