//! Synthesis planning: representability, the sticky-Fn workaround, scroll
//! rounding, and the synthetic marker round trip.

use rdev::macos::common::classify_synthetic;
use rdev::macos::simulate::{
    convert_native, set_keyboard_extra_info, set_mouse_extra_info, simulate, wheel_steps,
    workaround_flags, NativePlan, SimulateConfig, VirtualInput, MASK_HELP, MASK_NUMERIC_PAD,
    MASK_SECONDARY_FN,
};
use rdev::{Button, EventType, Key, RawKey, SimulateError, SCROLL_DENOM, SYNTHETIC_MARKER};

/// A key press plans a keyboard event under the current flags; a key the
/// table does not name has no plan.
#[test]
fn keyboard_plans() {
    let plan = convert_native(&EventType::KeyPress(Key::KeyB), 0x20000);
    assert_eq!(plan, Some(NativePlan::KeyboardEvent { code: 0x0B, down: true, flags: 0x20000 }));

    let raw = convert_native(
        &EventType::KeyPress(Key::RawKey(RawKey::MacVirtualKeycode(0x42))),
        0,
    );
    assert_eq!(raw, Some(NativePlan::KeyboardEvent { code: 0x42, down: true, flags: 0 }));

    assert_eq!(convert_native(&EventType::KeyPress(Key::Insert), 0), None);
    assert_eq!(
        convert_native(&EventType::KeyPress(Key::RawKey(RawKey::WinVirtualKeycode(7))), 0),
        None
    );
}

/// A key release strips the sticky flags its keycode calls for.
#[test]
fn release_applies_workaround() {
    let flags = MASK_SECONDARY_FN | MASK_NUMERIC_PAD | MASK_HELP | 0x20000;
    // F1 strips only the secondary-Fn flag.
    assert_eq!(
        workaround_flags(0x7A, flags),
        MASK_NUMERIC_PAD | MASK_HELP | 0x20000
    );
    // An arrow strips secondary-Fn and numeric-pad.
    assert_eq!(workaround_flags(0x7B, flags), MASK_HELP | 0x20000);
    // Help strips secondary-Fn and help.
    assert_eq!(workaround_flags(0x72, flags), MASK_NUMERIC_PAD | 0x20000);
    // An ordinary key strips nothing.
    assert_eq!(workaround_flags(0x0B, flags), flags);

    let plan = convert_native(&EventType::KeyRelease(Key::F1), flags);
    assert_eq!(
        plan,
        Some(NativePlan::KeyboardEvent {
            code: 0x7A,
            down: false,
            flags: MASK_NUMERIC_PAD | MASK_HELP | 0x20000,
        })
    );
}

/// Only the left and right buttons synthesize, at the cursor.
#[test]
fn button_plans() {
    assert_eq!(
        convert_native(&EventType::ButtonPress(Button::Left), 0),
        Some(NativePlan::ButtonAtCursor { button: Button::Left, down: true })
    );
    assert_eq!(
        convert_native(&EventType::ButtonRelease(Button::Right), 0),
        Some(NativePlan::ButtonAtCursor { button: Button::Right, down: false })
    );
    assert_eq!(convert_native(&EventType::ButtonPress(Button::Middle), 0), None);
    assert_eq!(convert_native(&EventType::ButtonPress(Button::Unknown(7)), 0), None);
}

/// Moves and wheels plan directly; raw variants are never synthesizable.
#[test]
fn move_wheel_and_raw_plans() {
    assert_eq!(
        convert_native(&EventType::MouseMove { x: 4, y: 9 }, 0),
        Some(NativePlan::MouseMoveTo { x: 4, y: 9 })
    );
    assert_eq!(
        convert_native(
            &EventType::Wheel { delta_x: -SCROLL_DENOM, delta_y: 3 * SCROLL_DENOM },
            0
        ),
        Some(NativePlan::WheelScroll { steps_y: 3, steps_x: -1 })
    );
    assert_eq!(convert_native(&EventType::KeyPressRaw(Key::KeyA), 0), None);
    assert_eq!(convert_native(&EventType::WheelRaw { delta_x: 1, delta_y: 1 }, 0), None);
    assert_eq!(convert_native(&EventType::MouseMoveRaw { delta_x: 1, delta_y: 1 }, 0), None);
}

/// Scroll rounding goes half away from zero and saturates.
#[test]
fn wheel_rounding() {
    assert_eq!(wheel_steps(0), 0);
    assert_eq!(wheel_steps(299), 0);
    assert_eq!(wheel_steps(300), 1);
    assert_eq!(wheel_steps(-299), 0);
    assert_eq!(wheel_steps(-300), -1);
    assert_eq!(wheel_steps(900), 2);
    assert_eq!(wheel_steps(i64::MAX), i32::MAX);
    assert_eq!(wheel_steps(i64::MIN), i32::MIN);
}

/// An unrepresentable event is a simulate error and issues no plan.
#[test]
fn simulate_error_on_raw() {
    let config = SimulateConfig::new();
    assert_eq!(
        simulate(&EventType::KeyPressRaw(Key::KeyB), &config, 0),
        Err(SimulateError)
    );
}

/// A simulated keyboard event carries the keyboard marker word, any
/// other the mouse word, and the capture side classifies an event
/// carrying the known marker as synthetic.
#[test]
fn synthetic_marking_round_trip() {
    let mut config = SimulateConfig::new();
    set_mouse_extra_info(&mut config, 33);
    set_keyboard_extra_info(&mut config, SYNTHETIC_MARKER);

    let key = simulate(&EventType::KeyPress(Key::KeyB), &config, 0).expect("keyboard plan");
    assert_eq!(key.extra_data, SYNTHETIC_MARKER);
    assert!(classify_synthetic(false, key.extra_data));

    let wheel = simulate(&EventType::Wheel { delta_x: 0, delta_y: SCROLL_DENOM }, &config, 0)
        .expect("wheel plan");
    assert_eq!(wheel.extra_data, 33);
    assert!(!classify_synthetic(false, wheel.extra_data));

    let moved = simulate(&EventType::MouseMove { x: 1, y: 2 }, &config, 0).expect("move plan");
    assert_eq!(moved.extra_data, 33);
}

/// A bound synthesis source plans like the free function, without a
/// marker word.
#[test]
fn virtual_input_plans() {
    let vi = VirtualInput::new(1, 0).expect("source");
    assert_eq!(vi.state_id, 1);
    let plan = vi.simulate(&EventType::KeyRelease(Key::KeyB), 0).expect("plan");
    assert_eq!(plan, NativePlan::KeyboardEvent { code: 0x0B, down: false, flags: 0 });
    assert_eq!(
        vi.simulate(&EventType::ButtonPressRaw(Button::Left), 0),
        Err(SimulateError)
    );
}
