//! The macOS keyboard state: modifier mapping, dead-key composition, and
//! translation decoding.

use rdev::macos::keyboard::{
    flags_to_state, Keyboard, TranslationRequest, FLAG_CAPS_LOCK, FLAG_COMMAND, FLAG_CONTROL,
    FLAG_OPTION, FLAG_SHIFT,
};
use rdev::{EventType, Key};

/// The Carbon modifier byte, bit by bit and in combination.
#[test]
fn flags_to_state_bits() {
    assert_eq!(flags_to_state(0), 0);
    assert_eq!(flags_to_state(FLAG_COMMAND), 1);
    assert_eq!(flags_to_state(FLAG_SHIFT), 2);
    assert_eq!(flags_to_state(FLAG_CAPS_LOCK), 4);
    assert_eq!(flags_to_state(FLAG_OPTION), 8);
    assert_eq!(flags_to_state(FLAG_CONTROL), 16);
    assert_eq!(flags_to_state(FLAG_OPTION | FLAG_SHIFT), 10);
    assert_eq!(flags_to_state(FLAG_COMMAND | FLAG_CONTROL | FLAG_SHIFT), 19);
}

/// The shadow modifier state: option and shift/caps combine to ten,
/// option alone is eight, shift or caps alone is two.
#[test]
fn shadow_modifier_state() {
    let mut kb = Keyboard::new().unwrap();
    assert_eq!(kb.modifier_state(), 0);
    kb.shift = true;
    assert_eq!(kb.modifier_state(), 2);
    kb.alt = true;
    assert_eq!(kb.modifier_state(), 10);
    kb.shift = false;
    assert_eq!(kb.modifier_state(), 8);
    kb.caps_lock = true;
    assert_eq!(kb.modifier_state(), 10);
}

/// Dead-key composition: option-U yields an empty dead descriptor, the
/// following E yields the composed letter with the dead bit clear.
#[test]
fn dead_key_composition() {
    let mut kb = Keyboard::new().unwrap();
    assert!(!kb.is_dead());

    // Option-U: the layout reports no units yet and a pending dead state.
    let first = kb.apply_translation(&vec![], 0x0001).expect("dead descriptor");
    assert_eq!(first.name, None);
    assert!(first.unicode.is_empty());
    assert!(first.is_dead);
    assert!(kb.is_dead());

    // E: the layout now composes the letter and clears the dead state.
    let second = kb.apply_translation(&vec![0x00EB], 0).expect("composed letter");
    assert_eq!(second.unicode, vec![0x00EB]);
    assert!(!second.is_dead);
    assert_eq!(second.name, Some("\u{00EB}".to_string()));
    assert!(!kb.is_dead());
}

/// No units and no dead state decode to nothing; a single C0 control
/// unit is suppressed; larger unit sequences carry their decoded text.
#[test]
fn translation_decoding() {
    let mut kb = Keyboard::new().unwrap();
    assert!(kb.apply_translation(&vec![], 0).is_none());
    assert!(kb.apply_translation(&vec![0x0001], 0).is_none());
    assert!(kb.apply_translation(&vec![0x001F], 0).is_none());

    let space = kb.apply_translation(&vec![0x0020], 0).expect("plain unit");
    assert_eq!(space.name, Some(" ".to_string()));

    // A lone high surrogate is ill-formed UTF-16: units survive, name none.
    let bad = kb.apply_translation(&vec![0xD800, 0x0041], 0).expect("units kept");
    assert_eq!(bad.unicode, vec![0xD800, 0x0041]);
    assert_eq!(bad.name, None);
    assert!(!bad.is_dead);

    // A surrogate pair decodes to its supplementary character.
    let pair = kb.apply_translation(&vec![0xD83D, 0xDE00], 0).expect("pair");
    assert_eq!(pair.name, Some("\u{1F600}".to_string()));
}

/// A key-down under command or control asks for no translation; any
/// other asks under the flag word's modifier state, threading the dead
/// word.
#[test]
fn translation_requests() {
    let mut kb = Keyboard::new().unwrap();
    assert!(kb.translation_request(0x20, FLAG_COMMAND).is_none());
    assert!(kb.translation_request(0x20, FLAG_CONTROL).is_none());
    let req = kb.translation_request(0x20, FLAG_OPTION).expect("request");
    assert_eq!(req, TranslationRequest { code: 0x20, modifier_state: 8, dead_state: 0 });

    kb.apply_translation(&vec![], 0x0001).expect("dead");
    let req = kb.translation_request(0x0E, 0).expect("request");
    assert_eq!(req.dead_state, 0x0001);
}

/// Shadow tracking: shift and option presses latch, caps-lock toggles,
/// and an ordinary press asks for a translation under the shadow state.
#[test]
fn add_tracks_modifiers() {
    let mut kb = Keyboard::new().unwrap();
    assert!(kb.add(&EventType::KeyPress(Key::ShiftLeft)).is_none());
    assert!(kb.shift);
    assert!(kb.add(&EventType::KeyPress(Key::CapsLock)).is_none());
    assert!(kb.caps_lock);
    assert!(kb.add(&EventType::KeyPress(Key::CapsLock)).is_none());
    assert!(!kb.caps_lock);
    assert!(kb.add(&EventType::KeyPress(Key::Alt)).is_none());
    assert!(kb.alt);

    let req = kb.add(&EventType::KeyPress(Key::KeyA)).expect("request");
    assert_eq!(req, TranslationRequest { code: 0x00, modifier_state: 10, dead_state: 0 });

    assert!(kb.add(&EventType::KeyRelease(Key::ShiftLeft)).is_none());
    assert!(!kb.shift);
    assert!(kb.add(&EventType::KeyRelease(Key::Alt)).is_none());
    assert!(!kb.alt);
    assert!(kb.add(&EventType::KeyRelease(Key::KeyA)).is_none());
    assert!(kb.add(&EventType::MouseMove { x: 1, y: 2 }).is_none());

    // A key the macOS table does not name asks for nothing.
    assert!(kb.add(&EventType::KeyPress(Key::Insert)).is_none());
}
