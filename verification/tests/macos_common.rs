//! The macOS decoder: layout swap, native decode, flag diffing, and the
//! synthetic marker.

use rdev::macos::common::{
    classify_synthetic, convert, convert_stream, key_to_name, map_keycode, wants_unicode,
    NativeEvent, NativeEventKind, KEYBOARD_ANSI, KEYBOARD_ISO, KEYBOARD_JIS, KEYBOARD_UNKNOWN,
    VK_ANSI_GRAVE, VK_ISO_SECTION,
};
use rdev::keycodes::macos;
use rdev::{Button, EventType, Key, SCROLL_DENOM, SYNTHETIC_MARKER};

fn plain(kind: NativeEventKind) -> NativeEvent {
    NativeEvent { kind, extra_data: 0, source_differs: false }
}

/// The physical layout classes are distinct, and only ISO swaps.
#[test]
#[allow(non_snake_case)]
fn test_KBGetLayoutType() {
    let classes = [KEYBOARD_JIS, KEYBOARD_ANSI, KEYBOARD_ISO, KEYBOARD_UNKNOWN];
    for (i, a) in classes.iter().enumerate() {
        for b in classes.iter().skip(i + 1) {
            assert_ne!(a, b);
        }
    }
    for class in [KEYBOARD_JIS, KEYBOARD_ANSI, KEYBOARD_UNKNOWN] {
        assert_eq!(map_keycode(VK_ISO_SECTION, class), VK_ISO_SECTION);
        assert_eq!(map_keycode(VK_ANSI_GRAVE, class), VK_ANSI_GRAVE);
    }
    assert_eq!(map_keycode(VK_ISO_SECTION, KEYBOARD_ISO), VK_ANSI_GRAVE);
    assert_eq!(map_keycode(VK_ANSI_GRAVE, KEYBOARD_ISO), VK_ISO_SECTION);
}

/// On an ISO keyboard the section key reads as the back-quote key; on an
/// ANSI keyboard it keeps its own identity, with no swap.
#[test]
fn iso_ansi_grave_swap() {
    let on_iso = macos::key_from_code(map_keycode(VK_ISO_SECTION, KEYBOARD_ISO));
    assert_eq!(on_iso, Key::BackQuote);
    let on_ansi = macos::key_from_code(map_keycode(VK_ISO_SECTION, KEYBOARD_ANSI));
    assert_eq!(on_ansi, Key::IntlBackslash);
    let grave_on_ansi = macos::key_from_code(map_keycode(VK_ANSI_GRAVE, KEYBOARD_ANSI));
    assert_eq!(grave_on_ansi, Key::BackQuote);
}

/// A native key-down decodes to exactly one raw press then one cooked
/// press of the same key.
#[test]
fn key_down_pair() {
    let mut flags: u64 = 0;
    let ev = plain(NativeEventKind::KeyDown { code: 0x0B, flags: 0 });
    let events = convert(&ev, None, 7, KEYBOARD_ANSI, &mut flags);
    assert_eq!(events.len(), 2);
    assert_eq!(events[0].event_type, EventType::KeyPressRaw(Key::KeyB));
    assert_eq!(events[1].event_type, EventType::KeyPress(Key::KeyB));
    assert_eq!(events[0].platform_code, 0x0B);
    assert_eq!(events[1].time, 7);
    assert!(!events[0].is_synthetic);
    assert_eq!(flags, 0);
}

/// The flags-changed diff: growing flag words press, shrinking ones
/// release, in the order the bitsets arrive.
#[test]
fn flags_changed_transitions() {
    const SHIFT: u64 = 1 << 17;
    const COMMAND: u64 = 1 << 20;
    let mut flags: u64 = 0;
    let mut cooked = Vec::new();
    let steps: [(u16, u64); 4] = [
        (0x38, SHIFT),
        (0x37, SHIFT | COMMAND),
        (0x37, SHIFT),
        (0x38, 0),
    ];
    for (code, word) in steps {
        let ev = plain(NativeEventKind::FlagsChanged { code, flags: word });
        let events = convert(&ev, None, 0, KEYBOARD_ANSI, &mut flags);
        assert_eq!(events.len(), 2);
        cooked.push(events[1].event_type);
        assert_eq!(flags, word);
    }
    assert_eq!(
        cooked,
        vec![
            EventType::KeyPress(Key::ShiftLeft),
            EventType::KeyPress(Key::MetaLeft),
            EventType::KeyRelease(Key::MetaLeft),
            EventType::KeyRelease(Key::ShiftLeft),
        ]
    );
}

/// A mouse move with zero deltas skips the raw event; a non-zero one
/// emits the raw delta first and the absolute position second.
#[test]
fn mouse_move_raw_then_cooked() {
    let mut flags: u64 = 0;
    let still = plain(NativeEventKind::MouseMoved { delta_x: 0, delta_y: 0, x: 10, y: 20 });
    let events = convert(&still, None, 0, KEYBOARD_ANSI, &mut flags);
    assert_eq!(events.len(), 1);
    assert_eq!(events[0].event_type, EventType::MouseMove { x: 10, y: 20 });

    let moving = plain(NativeEventKind::MouseMoved { delta_x: 3, delta_y: -4, x: 13, y: 16 });
    let events = convert(&moving, None, 0, KEYBOARD_ANSI, &mut flags);
    assert_eq!(events.len(), 2);
    assert_eq!(events[0].event_type, EventType::MouseMoveRaw { delta_x: 3, delta_y: -4 });
    assert_eq!(events[1].event_type, EventType::MouseMove { x: 13, y: 16 });
}

/// A scroll decodes to a raw and a cooked wheel event carrying the same
/// fixed-point deltas.
#[test]
fn scroll_wheel_fixed_point() {
    let mut flags: u64 = 0;
    let ev = plain(NativeEventKind::ScrollWheel { delta_x: -1, delta_y: 2 });
    let events = convert(&ev, None, 0, KEYBOARD_ANSI, &mut flags);
    assert_eq!(events.len(), 2);
    let expected_x = -SCROLL_DENOM;
    let expected_y = 2 * SCROLL_DENOM;
    assert_eq!(
        events[0].event_type,
        EventType::WheelRaw { delta_x: expected_x, delta_y: expected_y }
    );
    assert_eq!(
        events[1].event_type,
        EventType::Wheel { delta_x: expected_x, delta_y: expected_y }
    );
}

/// Buttons decode raw-then-cooked; button number two is the middle one.
#[test]
fn button_decode() {
    let mut flags: u64 = 0;
    let ev = plain(NativeEventKind::OtherMouseDown { button_num: 2 });
    let events = convert(&ev, None, 0, KEYBOARD_ANSI, &mut flags);
    assert_eq!(events[0].event_type, EventType::ButtonPressRaw(Button::Middle));
    assert_eq!(events[1].event_type, EventType::ButtonPress(Button::Middle));

    let ev = plain(NativeEventKind::OtherMouseUp { button_num: 4 });
    let events = convert(&ev, None, 0, KEYBOARD_ANSI, &mut flags);
    assert_eq!(events[0].event_type, EventType::ButtonReleaseRaw(Button::Unknown(4)));
    assert_eq!(events[1].event_type, EventType::ButtonRelease(Button::Unknown(4)));
}

/// An event is classified synthetic on a foreign source state or on the
/// marker word, and only then.
#[test]
fn synthetic_classification() {
    assert!(classify_synthetic(true, 0));
    assert!(classify_synthetic(false, SYNTHETIC_MARKER));
    assert!(!classify_synthetic(false, 0));
    assert!(!classify_synthetic(false, 99));

    let mut flags: u64 = 0;
    let ev = NativeEvent {
        kind: NativeEventKind::KeyDown { code: 0x0B, flags: 0 },
        extra_data: SYNTHETIC_MARKER,
        source_differs: false,
    };
    let events = convert(&ev, None, 0, KEYBOARD_ANSI, &mut flags);
    assert!(events[0].is_synthetic);
    assert!(events[1].is_synthetic);
    assert_eq!(events[1].extra_data, SYNTHETIC_MARKER);
}

/// A whole stream decodes block by block, threading the flag word, and
/// delivers the raw variant of each pair first.
#[test]
fn stream_decoding() {
    const SHIFT: u64 = 1 << 17;
    let natives = vec![
        plain(NativeEventKind::FlagsChanged { code: 0x38, flags: SHIFT }),
        plain(NativeEventKind::KeyDown { code: 0x00, flags: SHIFT }),
        plain(NativeEventKind::FlagsChanged { code: 0x38, flags: 0 }),
    ];
    let unicodes = vec![None, None, None];
    let times = vec![1, 2, 3];
    let mut flags: u64 = 0;
    let blocks = convert_stream(&natives, &unicodes, &times, KEYBOARD_ANSI, &mut flags);
    assert_eq!(blocks.len(), 3);
    assert_eq!(blocks[0][1].event_type, EventType::KeyPress(Key::ShiftLeft));
    assert_eq!(blocks[1][0].event_type, EventType::KeyPressRaw(Key::KeyA));
    assert_eq!(blocks[1][1].event_type, EventType::KeyPress(Key::KeyA));
    assert_eq!(blocks[2][1].event_type, EventType::KeyRelease(Key::ShiftLeft));
    assert_eq!(flags, 0);
}

/// The shift keys and forward-delete want no composed text.
#[test]
fn unicode_skip_keys() {
    assert!(!wants_unicode(0x38));
    assert!(!wants_unicode(0x3C));
    assert!(!wants_unicode(0x75));
    assert!(wants_unicode(0x00));
}

/// Printable keys have their ASCII names; others have none.
#[test]
fn printable_key_names() {
    assert_eq!(key_to_name(Key::KeyA), "a");
    assert_eq!(key_to_name(Key::Num0), "0");
    assert_eq!(key_to_name(Key::BackQuote), "`");
    assert_eq!(key_to_name(Key::Slash), "/");
    assert_eq!(key_to_name(Key::ShiftLeft), "");
}
