//! The macOS keyboard state: shadow modifier tracking and dead-key
//! composition.
//!
//! The layout translation itself (`UCKeyTranslate`) belongs to the
//! operating system and must run on the main thread; the shell performs it
//! and hands the resulting UTF-16 units and dead-key word back.  This
//! module decides when a translation is requested, with which modifier
//! state, and what descriptor the units decode to.

use crate::keycodes::macos::code_from_key;
use crate::rdev::{EventType, Key, UnicodeInfo, UnicodeView, opt_unicode_view};
use vstd::prelude::*;

verus! {

/// The modifier bits of a native flags word.
pub const FLAG_CAPS_LOCK: u64 = 1u64 << 16;

pub const FLAG_SHIFT: u64 = 1u64 << 17;

pub const FLAG_CONTROL: u64 = 1u64 << 18;

pub const FLAG_OPTION: u64 = 1u64 << 19;

pub const FLAG_COMMAND: u64 = 1u64 << 20;

/// The layout-translation modifier state a native flags word maps to: the
/// Carbon modifier byte, with the command bit lowest, then shift, caps
/// lock, option and control.
pub open spec fn state_of_flags(flags: u64) -> u32 {
    ((if flags & FLAG_COMMAND != 0 {
        1int
    } else {
        0int
    }) + (if flags & FLAG_SHIFT != 0 {
        2int
    } else {
        0int
    }) + (if flags & FLAG_CAPS_LOCK != 0 {
        4int
    } else {
        0int
    }) + (if flags & FLAG_OPTION != 0 {
        8int
    } else {
        0int
    }) + (if flags & FLAG_CONTROL != 0 {
        16int
    } else {
        0int
    })) as u32
}

/// Maps a native flags word to the layout-translation modifier state.
pub fn flags_to_state(flags: u64) -> (r: u32)
    ensures
        r == state_of_flags(flags),
{
    let mut modifier: u32 = 0;
    if flags & FLAG_COMMAND != 0 {
        modifier = modifier + 1;
    }
    if flags & FLAG_SHIFT != 0 {
        modifier = modifier + 2;
    }
    if flags & FLAG_CAPS_LOCK != 0 {
        modifier = modifier + 4;
    }
    if flags & FLAG_OPTION != 0 {
        modifier = modifier + 8;
    }
    if flags & FLAG_CONTROL != 0 {
        modifier = modifier + 16;
    }
    modifier
}

/// What a layout translation is asked to translate: the keycode, the
/// modifier state to translate under, and the dead-key word to thread
/// through the call.
#[derive(Clone, Copy, Debug, PartialEq, Eq, Structural)]
pub struct TranslationRequest {
    pub code: u32,
    pub modifier_state: u32,
    pub dead_state: u32,
}

/// The per-session keyboard state: the dead-key word the layout
/// translation threads, and the shadow modifier flags tracked from the
/// observed key events.
#[derive(Clone, Copy, Debug, PartialEq, Eq, Structural)]
pub struct Keyboard {
    pub dead_state: u32,
    pub shift: bool,
    pub alt: bool,
    pub caps_lock: bool,
}

/// The descriptor a translation's UTF-16 units decode to.
///
/// No units with a pending dead-key word is a dead-key descriptor; no
/// units otherwise is no text; a single C0 control unit is suppressed;
/// anything else is the text itself, with its decoded form when the units
/// are well-formed UTF-16.
pub open spec fn decoded_translation(units: Seq<u16>, dead_state: u32) -> Option<UnicodeView> {
    if units.len() == 0 {
        if dead_state != 0 {
            Some(UnicodeView { name: None, unicode: Seq::empty(), is_dead: true })
        } else {
            None
        }
    } else if units.len() == 1 && 1 <= units[0] <= 0x1F {
        None
    } else {
        Some(UnicodeView { name: utf16_text(units), unicode: units, is_dead: false })
    }
}

/// The text that decoding a sequence of UTF-16 units yields, or nothing
/// where the sequence is ill-formed.  Named after `String::from_utf16`,
/// which computes it.
pub uninterp spec fn utf16_text(units: Seq<u16>) -> Option<Seq<char>>;

/// Relies on `String::from_utf16`: the decoded text is a function of the
/// units alone, and decoding fails exactly on ill-formed UTF-16.
#[verifier::external_body]
fn utf16_name(units: &Vec<u16>) -> (r: Option<String>)
    ensures
        match r {
            Some(s) => utf16_text(units@) == Some(s@),
            None => utf16_text(units@) is None,
        },
{
    String::from_utf16(units.as_slice()).ok()
}

impl Keyboard {
    /// A fresh keyboard state: no dead key pending, no modifier held.
    pub fn new() -> (r: Option<Keyboard>)
        ensures
            r == Some(Keyboard { dead_state: 0u32, shift: false, alt: false, caps_lock: false }),
    {
        Some(Keyboard { dead_state: 0, shift: false, alt: false, caps_lock: false })
    }

    /// The modifier state the shadow flags imply.
    pub open spec fn spec_modifier_state(self) -> u32 {
        if self.alt && (self.shift || self.caps_lock) {
            10u32
        } else if self.alt {
            8u32
        } else if self.shift || self.caps_lock {
            2u32
        } else {
            0u32
        }
    }

    /// The modifier state to translate under, from the shadow flags alone.
    pub fn modifier_state(&self) -> (r: u32)
        ensures
            r == self.spec_modifier_state(),
    {
        if self.alt && (self.shift || self.caps_lock) {
            10
        } else if self.alt && !(self.shift || self.caps_lock) {
            8
        } else if !self.alt && (self.caps_lock || self.shift) {
            2
        } else {
            0
        }
    }

    /// True while a dead key is pending.
    pub fn is_dead(&self) -> (r: bool)
        ensures
            r == (self.dead_state != 0),
    {
        self.dead_state != 0
    }

    /// The translation request a key-down asks for, if any: none when the
    /// command or control flag is held, else the keycode under the flag
    /// word's modifier state, threading the pending dead-key word.
    pub open spec fn spec_translation_request(
        self,
        code: u32,
        flags: u64,
    ) -> Option<TranslationRequest> {
        if flags & FLAG_COMMAND != 0 || flags & FLAG_CONTROL != 0 {
            None
        } else {
            Some(
                TranslationRequest {
                    code,
                    modifier_state: state_of_flags(flags),
                    dead_state: self.dead_state,
                },
            )
        }
    }

    /// Asks for the layout translation of a key-down observed with a
    /// native flags word.
    pub fn translation_request(&self, code: u32, flags: u64) -> (r: Option<TranslationRequest>)
        ensures
            r == self.spec_translation_request(code, flags),
    {
        if flags & FLAG_COMMAND != 0 || flags & FLAG_CONTROL != 0 {
            return None;
        }
        Some(
            TranslationRequest {
                code,
                modifier_state: flags_to_state(flags),
                dead_state: self.dead_state,
            },
        )
    }

    /// Takes the outcome of a layout translation: remembers the new
    /// dead-key word and decodes the units into a descriptor.
    pub fn apply_translation(&mut self, units: &Vec<u16>, dead_state: u32) -> (r: Option<UnicodeInfo>)
        ensures
            *final(self) == (Keyboard { dead_state, ..*old(self) }),
            opt_unicode_view(r) == decoded_translation(units@, dead_state),
    {
        self.dead_state = dead_state;
        if units.len() == 0 {
            if dead_state != 0 {
                let r = UnicodeInfo { name: None, unicode: Vec::new(), is_dead: true };
                proof {
                    assert(r@ =~~= UnicodeView {
                        name: None,
                        unicode: Seq::empty(),
                        is_dead: true,
                    });
                }
                Some(r)
            } else {
                None
            }
        } else if units.len() == 1 && 1 <= units[0] && units[0] <= 0x1F {
            None
        } else {
            let name = utf16_name(units);
            let copied = clone_units(units);
            let r = UnicodeInfo { name, unicode: copied, is_dead: false };
            proof {
                assert(r@ =~~= UnicodeView {
                    name: utf16_text(units@),
                    unicode: units@,
                    is_dead: false,
                });
            }
            Some(r)
        }
    }

    /// The keyboard state after taking note of a portable event: a shift
    /// press or release sets or clears the shift flag, an option press or
    /// release the option flag, and a caps-lock press toggles the lock;
    /// nothing else changes the state here.
    pub open spec fn spec_added(self, event_type: EventType) -> Keyboard {
        match event_type {
            EventType::KeyPress(key) => match key {
                Key::ShiftLeft | Key::ShiftRight => Keyboard { shift: true, ..self },
                Key::Alt | Key::AltGr => Keyboard { alt: true, ..self },
                Key::CapsLock => Keyboard { caps_lock: !self.caps_lock, ..self },
                _ => self,
            },
            EventType::KeyRelease(key) => match key {
                Key::ShiftLeft | Key::ShiftRight => Keyboard { shift: false, ..self },
                Key::Alt | Key::AltGr => Keyboard { alt: false, ..self },
                _ => self,
            },
            _ => self,
        }
    }

    /// The translation request taking note of a portable event asks for:
    /// only a press of a non-modifier key that the macOS table names asks
    /// for one, under the shadow modifier state.
    pub open spec fn spec_add_request(self, event_type: EventType) -> Option<TranslationRequest> {
        match event_type {
            EventType::KeyPress(key) => match key {
                Key::ShiftLeft | Key::ShiftRight | Key::Alt | Key::AltGr | Key::CapsLock => None,
                _ => match crate::keycodes::macos::code_for(key) {
                    Some(code) => Some(
                        TranslationRequest {
                            code: code as u32,
                            modifier_state: self.spec_modifier_state(),
                            dead_state: self.dead_state,
                        },
                    ),
                    None => None,
                },
            },
            _ => None,
        }
    }

    /// Takes note of a portable event: updates the shadow modifier flags
    /// and, for any other key press, asks for a translation under them.
    pub fn add(&mut self, event_type: &EventType) -> (r: Option<TranslationRequest>)
        ensures
            *final(self) == old(self).spec_added(*event_type),
            r == old(self).spec_add_request(*event_type),
    {
        match event_type {
            EventType::KeyPress(key) => match key {
                Key::ShiftLeft | Key::ShiftRight => {
                    self.shift = true;
                    None
                },
                Key::Alt | Key::AltGr => {
                    self.alt = true;
                    None
                },
                Key::CapsLock => {
                    self.caps_lock = !self.caps_lock;
                    None
                },
                key => match code_from_key(*key) {
                    Some(code) => Some(
                        TranslationRequest {
                            code: code as u32,
                            modifier_state: self.modifier_state(),
                            dead_state: self.dead_state,
                        },
                    ),
                    None => None,
                },
            },
            EventType::KeyRelease(key) => match key {
                Key::ShiftLeft | Key::ShiftRight => {
                    self.shift = false;
                    None
                },
                Key::Alt | Key::AltGr => {
                    self.alt = false;
                    None
                },
                _ => None,
            },
            _ => None,
        }
    }
}

fn clone_units(units: &Vec<u16>) -> (r: Vec<u16>)
    ensures
        r@ == units@,
{
    let r = units.clone();
    proof {
        assert(r@ =~= units@);
    }
    r
}

/// Law: a dead-key descriptor carries no code units: whenever a
/// translation decodes to a descriptor with the dead-key bit set, its unit
/// sequence is empty.
pub proof fn lemma_dead_key_has_no_units(units: Seq<u16>, dead_state: u32)
    ensures
        decoded_translation(units, dead_state) matches Some(u) ==> (u.is_dead ==> u.unicode.len()
            == 0),
{
}

} // verus!
