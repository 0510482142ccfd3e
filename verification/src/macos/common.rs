//! Decoding a macOS tap event into portable events.
//!
//! The operating-system shell reads the native event's fields into a
//! [`NativeEvent`] record of plain values; [`convert`] turns that record into
//! the portable events to deliver, raw variant first, and threads the
//! modifier-flag word that classifies a flags-changed event as a press or a
//! release.

use crate::keycodes::macos::{key_for, key_from_code};
use crate::rdev::{
    Button, Event, EventType, EventView, Key, UnicodeInfo, UnicodeView, opt_unicode_view,
    views_of, SCROLL_DENOM, SYNTHETIC_MARKER,
};
use vstd::prelude::*;

verus! {

/// Physical keyboard layout classes, as the layout-type query reports them.
pub const KEYBOARD_JIS: u32 = 1246319392;

pub const KEYBOARD_ANSI: u32 = 1095652169;

pub const KEYBOARD_ISO: u32 = 1230196512;

pub const KEYBOARD_UNKNOWN: u32 = 1061109567;

/// The virtual keycodes the decoder treats specially.
pub const VK_ISO_SECTION: u16 = 0x0A;

pub const VK_ANSI_GRAVE: u16 = 0x32;

pub const VK_SHIFT: u16 = 0x38;

pub const VK_RIGHT_SHIFT: u16 = 0x3C;

pub const VK_FORWARD_DELETE: u16 = 0x75;

/// The keycode as the attached physical layout reports it: on an ISO
/// keyboard the section key and the grave key swap identities; on any
/// other layout every keycode keeps its identity.
pub open spec fn mapped_keycode(code: u16, layout_type: u32) -> u16 {
    if code == VK_ISO_SECTION {
        if layout_type == KEYBOARD_ISO {
            VK_ANSI_GRAVE
        } else {
            VK_ISO_SECTION
        }
    } else if code == VK_ANSI_GRAVE {
        if layout_type == KEYBOARD_ISO {
            VK_ISO_SECTION
        } else {
            VK_ANSI_GRAVE
        }
    } else {
        code
    }
}

/// Applies the ISO/ANSI swap to a keycode.
pub fn map_keycode(code: u16, layout_type: u32) -> (r: u16)
    ensures
        r == mapped_keycode(code, layout_type),
{
    match code {
        VK_ISO_SECTION => if layout_type == KEYBOARD_ISO {
            VK_ANSI_GRAVE
        } else {
            VK_ISO_SECTION
        },
        VK_ANSI_GRAVE => if layout_type == KEYBOARD_ISO {
            VK_ISO_SECTION
        } else {
            VK_ANSI_GRAVE
        },
        _ => code,
    }
}

/// An event is synthetic when its source state differs from the hardware
/// state, or when it carries the cooperating marker word.
pub open spec fn synthetic(source_differs: bool, extra_data: i64) -> bool {
    source_differs || extra_data == SYNTHETIC_MARKER
}

/// Classifies an event as synthetic or hardware-born.
pub fn classify_synthetic(source_differs: bool, extra_data: i64) -> (r: bool)
    ensures
        r == synthetic(source_differs, extra_data),
{
    source_differs || extra_data == SYNTHETIC_MARKER
}

/// True of the key-down keycodes for which composed text is looked up:
/// the shift keys and forward-delete report a translation that no caller
/// wants, so they are skipped.
pub open spec fn unicode_wanted(code: u16) -> bool {
    code != VK_SHIFT && code != VK_RIGHT_SHIFT && code != VK_FORWARD_DELETE
}

/// Decides whether composed text is looked up for a key-down keycode.
pub fn wants_unicode(code: u16) -> (r: bool)
    ensures
        r == unicode_wanted(code),
{
    code != VK_SHIFT && code != VK_RIGHT_SHIFT && code != VK_FORWARD_DELETE
}

/// One native tap event, decoded to the plain fields the translation reads.
/// Mouse drags decode like plain moves; an event of no interest decodes to
/// `Other`.
#[derive(Clone, Copy, Debug, PartialEq, Eq, Structural)]
pub enum NativeEventKind {
    LeftMouseDown,
    LeftMouseUp,
    RightMouseDown,
    RightMouseUp,
    OtherMouseDown { button_num: i64 },
    OtherMouseUp { button_num: i64 },
    MouseMoved { delta_x: i32, delta_y: i32, x: i64, y: i64 },
    KeyDown { code: u16, flags: u64 },
    KeyUp { code: u16 },
    FlagsChanged { code: u16, flags: u64 },
    ScrollWheel { delta_x: i32, delta_y: i32 },
    Other,
}

/// A native tap event together with the source fields every decode reads.
#[derive(Clone, Copy, Debug, PartialEq, Eq, Structural)]
pub struct NativeEvent {
    pub kind: NativeEventKind,
    /// The event-source user-data word.
    pub extra_data: i64,
    /// True when the event's source state differs from the hardware state.
    pub source_differs: bool,
}

/// The portable button a native button number names: button two is the
/// middle button, any other number keeps its numeric identity.
pub open spec fn other_button(button_num: i64) -> Button {
    if button_num == 2 {
        Button::Middle
    } else {
        Button::Unknown(button_num as u8)
    }
}

/// An event that carries no key identity and no composed text.
pub open spec fn plain_view(
    event_type: EventType,
    time: u64,
    extra_data: i64,
    is_synthetic: bool,
) -> EventView {
    EventView {
        event_type,
        time,
        unicode: None,
        platform_code: 0,
        position_code: 0,
        usb_hid: 0,
        extra_data,
        is_synthetic,
    }
}

/// An event that carries a key identity and possibly composed text.
pub open spec fn key_view(
    event_type: EventType,
    time: u64,
    unicode: Option<UnicodeView>,
    code: u16,
    extra_data: i64,
    is_synthetic: bool,
) -> EventView {
    EventView {
        event_type,
        time,
        unicode,
        platform_code: code as u32,
        position_code: 0,
        usb_hid: 0,
        extra_data,
        is_synthetic,
    }
}

/// The portable events a native event decodes to, raw variant first.
///
/// `unicode` is the composed text the keyboard state produced for a
/// key-down; it is attached only where the keycode wants a translation.
/// `prev_flags` is the modifier-flag word of the previous flags-changed
/// event: a smaller new word means a modifier was released, any other
/// change means one was pressed.
pub open spec fn converted(
    ev: NativeEvent,
    unicode: Option<UnicodeView>,
    time: u64,
    layout_type: u32,
    prev_flags: u64,
) -> Seq<EventView> {
    let synth = synthetic(ev.source_differs, ev.extra_data);
    let extra = ev.extra_data;
    match ev.kind {
        NativeEventKind::LeftMouseDown => seq![
            plain_view(EventType::ButtonPressRaw(Button::Left), time, extra, synth),
            plain_view(EventType::ButtonPress(Button::Left), time, extra, synth),
        ],
        NativeEventKind::LeftMouseUp => seq![
            plain_view(EventType::ButtonReleaseRaw(Button::Left), time, extra, synth),
            plain_view(EventType::ButtonRelease(Button::Left), time, extra, synth),
        ],
        NativeEventKind::RightMouseDown => seq![
            plain_view(EventType::ButtonPressRaw(Button::Right), time, extra, synth),
            plain_view(EventType::ButtonPress(Button::Right), time, extra, synth),
        ],
        NativeEventKind::RightMouseUp => seq![
            plain_view(EventType::ButtonReleaseRaw(Button::Right), time, extra, synth),
            plain_view(EventType::ButtonRelease(Button::Right), time, extra, synth),
        ],
        NativeEventKind::OtherMouseDown { button_num } => seq![
            plain_view(EventType::ButtonPressRaw(other_button(button_num)), time, extra, synth),
            plain_view(EventType::ButtonPress(other_button(button_num)), time, extra, synth),
        ],
        NativeEventKind::OtherMouseUp { button_num } => seq![
            plain_view(EventType::ButtonReleaseRaw(other_button(button_num)), time, extra, synth),
            plain_view(EventType::ButtonRelease(other_button(button_num)), time, extra, synth),
        ],
        NativeEventKind::MouseMoved { delta_x, delta_y, x, y } => {
            let cooked = plain_view(EventType::MouseMove { x, y }, time, extra, synth);
            if delta_x != 0 || delta_y != 0 {
                seq![
                    plain_view(EventType::MouseMoveRaw { delta_x, delta_y }, time, extra, synth),
                    cooked,
                ]
            } else {
                seq![cooked]
            }
        },
        NativeEventKind::KeyDown { code, .. } => {
            let key = key_for(mapped_keycode(code, layout_type));
            let uni = if unicode_wanted(code) {
                unicode
            } else {
                None
            };
            seq![
                key_view(EventType::KeyPressRaw(key), time, uni, code, extra, synth),
                key_view(EventType::KeyPress(key), time, uni, code, extra, synth),
            ]
        },
        NativeEventKind::KeyUp { code } => {
            let key = key_for(mapped_keycode(code, layout_type));
            seq![
                key_view(EventType::KeyReleaseRaw(key), time, None, code, extra, synth),
                key_view(EventType::KeyRelease(key), time, None, code, extra, synth),
            ]
        },
        NativeEventKind::FlagsChanged { code, flags } => {
            let key = key_for(mapped_keycode(code, layout_type));
            if flags < prev_flags {
                seq![
                    key_view(EventType::KeyReleaseRaw(key), time, None, code, extra, synth),
                    key_view(EventType::KeyRelease(key), time, None, code, extra, synth),
                ]
            } else {
                seq![
                    key_view(EventType::KeyPressRaw(key), time, None, code, extra, synth),
                    key_view(EventType::KeyPress(key), time, None, code, extra, synth),
                ]
            }
        },
        NativeEventKind::ScrollWheel { delta_x, delta_y } => {
            let dx = (delta_x as int * SCROLL_DENOM as int) as i64;
            let dy = (delta_y as int * SCROLL_DENOM as int) as i64;
            seq![
                plain_view(EventType::WheelRaw { delta_x: dx, delta_y: dy }, time, extra, synth),
                plain_view(EventType::Wheel { delta_x: dx, delta_y: dy }, time, extra, synth),
            ]
        },
        NativeEventKind::Other => seq![],
    }
}

/// The modifier-flag word to remember after a native event: a flags-changed
/// event replaces it, every other event leaves it.
pub open spec fn next_flags(ev: NativeEvent, prev_flags: u64) -> u64 {
    match ev.kind {
        NativeEventKind::FlagsChanged { code: _, flags } => flags,
        _ => prev_flags,
    }
}

fn plain_event(event_type: EventType, time: u64, extra_data: i64, is_synthetic: bool) -> (r: Event)
    ensures
        r@ == plain_view(event_type, time, extra_data, is_synthetic),
{
    Event {
        event_type,
        time,
        unicode: None,
        platform_code: 0,
        position_code: 0,
        usb_hid: 0,
        extra_data,
        is_synthetic,
    }
}

fn key_event(
    event_type: EventType,
    time: u64,
    unicode: Option<UnicodeInfo>,
    code: u16,
    extra_data: i64,
    is_synthetic: bool,
) -> (r: Event)
    ensures
        r@ == key_view(event_type, time, opt_unicode_view(unicode), code, extra_data, is_synthetic),
{
    Event {
        event_type,
        time,
        unicode,
        platform_code: code as u32,
        position_code: 0,
        usb_hid: 0,
        extra_data,
        is_synthetic,
    }
}

fn clone_opt_unicode(u: &Option<UnicodeInfo>) -> (r: Option<UnicodeInfo>)
    ensures
        opt_unicode_view(r) == opt_unicode_view(*u),
{
    match u {
        Some(info) => Some(info.clone()),
        None => None,
    }
}

/// Decodes one native tap event into the portable events to deliver, in
/// order, and replaces the remembered modifier-flag word when the event is
/// a flags change.
pub fn convert(
    ev: &NativeEvent,
    unicode: Option<UnicodeInfo>,
    time: u64,
    layout_type: u32,
    last_flags: &mut u64,
) -> (events: Vec<Event>)
    ensures
        views_of(events@) == converted(
            *ev,
            opt_unicode_view(unicode),
            time,
            layout_type,
            *old(last_flags),
        ),
        *final(last_flags) == next_flags(*ev, *old(last_flags)),
{
    let ghost spec_events = converted(
        *ev,
        opt_unicode_view(unicode),
        time,
        layout_type,
        *last_flags,
    );
    let synth = classify_synthetic(ev.source_differs, ev.extra_data);
    let extra = ev.extra_data;
    let mut events: Vec<Event> = Vec::new();
    match ev.kind {
        NativeEventKind::LeftMouseDown => {
            events.push(plain_event(EventType::ButtonPressRaw(Button::Left), time, extra, synth));
            events.push(plain_event(EventType::ButtonPress(Button::Left), time, extra, synth));
        },
        NativeEventKind::LeftMouseUp => {
            events.push(plain_event(EventType::ButtonReleaseRaw(Button::Left), time, extra, synth));
            events.push(plain_event(EventType::ButtonRelease(Button::Left), time, extra, synth));
        },
        NativeEventKind::RightMouseDown => {
            events.push(plain_event(EventType::ButtonPressRaw(Button::Right), time, extra, synth));
            events.push(plain_event(EventType::ButtonPress(Button::Right), time, extra, synth));
        },
        NativeEventKind::RightMouseUp => {
            events.push(
                plain_event(EventType::ButtonReleaseRaw(Button::Right), time, extra, synth),
            );
            events.push(plain_event(EventType::ButtonRelease(Button::Right), time, extra, synth));
        },
        NativeEventKind::OtherMouseDown { button_num } => {
            let button = if button_num == 2 {
                Button::Middle
            } else {
                Button::Unknown(button_num as u8)
            };
            events.push(plain_event(EventType::ButtonPressRaw(button), time, extra, synth));
            events.push(plain_event(EventType::ButtonPress(button), time, extra, synth));
        },
        NativeEventKind::OtherMouseUp { button_num } => {
            let button = if button_num == 2 {
                Button::Middle
            } else {
                Button::Unknown(button_num as u8)
            };
            events.push(plain_event(EventType::ButtonReleaseRaw(button), time, extra, synth));
            events.push(plain_event(EventType::ButtonRelease(button), time, extra, synth));
        },
        NativeEventKind::MouseMoved { delta_x, delta_y, x, y } => {
            if delta_x != 0 || delta_y != 0 {
                events.push(
                    plain_event(EventType::MouseMoveRaw { delta_x, delta_y }, time, extra, synth),
                );
            }
            events.push(plain_event(EventType::MouseMove { x, y }, time, extra, synth));
        },
        NativeEventKind::KeyDown { code, .. } => {
            let key = key_from_code(map_keycode(code, layout_type));
            let uni = if wants_unicode(code) {
                unicode
            } else {
                None
            };
            let uni_raw = clone_opt_unicode(&uni);
            events.push(key_event(EventType::KeyPressRaw(key), time, uni_raw, code, extra, synth));
            events.push(key_event(EventType::KeyPress(key), time, uni, code, extra, synth));
        },
        NativeEventKind::KeyUp { code } => {
            let key = key_from_code(map_keycode(code, layout_type));
            events.push(key_event(EventType::KeyReleaseRaw(key), time, None, code, extra, synth));
            events.push(key_event(EventType::KeyRelease(key), time, None, code, extra, synth));
        },
        NativeEventKind::FlagsChanged { code, flags } => {
            let key = key_from_code(map_keycode(code, layout_type));
            if flags < *last_flags {
                events.push(
                    key_event(EventType::KeyReleaseRaw(key), time, None, code, extra, synth),
                );
                events.push(key_event(EventType::KeyRelease(key), time, None, code, extra, synth));
            } else {
                events.push(key_event(EventType::KeyPressRaw(key), time, None, code, extra, synth));
                events.push(key_event(EventType::KeyPress(key), time, None, code, extra, synth));
            }
            *last_flags = flags;
        },
        NativeEventKind::ScrollWheel { delta_x, delta_y } => {
            let dx = delta_x as i64 * SCROLL_DENOM;
            let dy = delta_y as i64 * SCROLL_DENOM;
            events.push(
                plain_event(EventType::WheelRaw { delta_x: dx, delta_y: dy }, time, extra, synth),
            );
            events.push(
                plain_event(EventType::Wheel { delta_x: dx, delta_y: dy }, time, extra, synth),
            );
        },
        NativeEventKind::Other => {},
    }
    proof {
        assert(views_of(events@) =~= spec_events);
    }
    events
}

/// The views of a sequence of optional composed-text descriptors.
pub open spec fn unicode_views(unicodes: Seq<Option<UnicodeInfo>>) -> Seq<Option<UnicodeView>> {
    unicodes.map_values(|u: Option<UnicodeInfo>| opt_unicode_view(u))
}

/// The per-event blocks a whole stream of native events decodes to, in
/// order, threading the remembered modifier-flag word from each event to
/// the next.
pub open spec fn converted_stream(
    natives: Seq<NativeEvent>,
    unicodes: Seq<Option<UnicodeView>>,
    times: Seq<u64>,
    layout_type: u32,
    prev_flags: u64,
) -> Seq<Seq<EventView>>
    decreases natives.len(),
{
    if natives.len() == 0 {
        Seq::empty()
    } else {
        seq![converted(natives[0], unicodes[0], times[0], layout_type, prev_flags)]
            + converted_stream(
            natives.drop_first(),
            unicodes.drop_first(),
            times.drop_first(),
            layout_type,
            next_flags(natives[0], prev_flags),
        )
    }
}

/// The modifier-flag word remembered after a whole stream.
pub open spec fn stream_flags(natives: Seq<NativeEvent>, prev_flags: u64) -> u64
    decreases natives.len(),
{
    if natives.len() == 0 {
        prev_flags
    } else {
        stream_flags(natives.drop_first(), next_flags(natives[0], prev_flags))
    }
}

/// A stream decodes to one block per native event.
pub proof fn lemma_converted_stream_len(
    natives: Seq<NativeEvent>,
    unicodes: Seq<Option<UnicodeView>>,
    times: Seq<u64>,
    layout_type: u32,
    prev_flags: u64,
)
    ensures
        converted_stream(natives, unicodes, times, layout_type, prev_flags).len() == natives.len(),
    decreases natives.len(),
{
    if natives.len() > 0 {
        lemma_converted_stream_len(
            natives.drop_first(),
            unicodes.drop_first(),
            times.drop_first(),
            layout_type,
            next_flags(natives[0], prev_flags),
        );
    }
}

/// Decodes a whole stream of native events in order, one block of
/// portable events per native event, threading the modifier-flag word.
pub fn convert_stream(
    natives: &Vec<NativeEvent>,
    unicodes: &Vec<Option<UnicodeInfo>>,
    times: &Vec<u64>,
    layout_type: u32,
    last_flags: &mut u64,
) -> (blocks: Vec<Vec<Event>>)
    requires
        unicodes@.len() == natives@.len(),
        times@.len() == natives@.len(),
    ensures
        blocks@.len() == natives@.len(),
        forall|i: int|
            0 <= i < blocks@.len() ==> views_of((#[trigger] blocks@[i])@) == converted_stream(
                natives@,
                unicode_views(unicodes@),
                times@,
                layout_type,
                *old(last_flags),
            )[i],
        *final(last_flags) == stream_flags(natives@, *old(last_flags)),
{
    let ghost spec_blocks = converted_stream(
        natives@,
        unicode_views(unicodes@),
        times@,
        layout_type,
        *last_flags,
    );
    proof {
        lemma_converted_stream_len(
            natives@,
            unicode_views(unicodes@),
            times@,
            layout_type,
            *last_flags,
        );
        assert(natives@.skip(0) =~= natives@);
        assert(unicode_views(unicodes@).skip(0) =~= unicode_views(unicodes@));
        assert(times@.skip(0) =~= times@);
        assert(spec_blocks.skip(0) =~= spec_blocks);
    }
    let mut blocks: Vec<Vec<Event>> = Vec::new();
    let mut idx: usize = 0;
    while idx < natives.len()
        invariant
            unicodes@.len() == natives@.len(),
            times@.len() == natives@.len(),
            spec_blocks.len() == natives@.len(),
            idx <= natives@.len(),
            blocks@.len() == idx,
            forall|i: int|
                0 <= i < idx ==> views_of((#[trigger] blocks@[i])@) == spec_blocks[i],
            converted_stream(
                natives@.skip(idx as int),
                unicode_views(unicodes@).skip(idx as int),
                times@.skip(idx as int),
                layout_type,
                *last_flags,
            ) == spec_blocks.skip(idx as int),
            stream_flags(natives@.skip(idx as int), *last_flags) == stream_flags(
                natives@,
                *old(last_flags),
            ),
        decreases natives@.len() - idx,
    {
        let ghost flags_before = *last_flags;
        let unicode = clone_opt_unicode(&unicodes[idx]);
        let block = convert(&natives[idx], unicode, times[idx], layout_type, last_flags);
        proof {
            let i = idx as int;
            assert(natives@.skip(i)[0] == natives@[i]);
            assert(unicode_views(unicodes@).skip(i)[0] == unicode_views(unicodes@)[i]);
            assert(times@.skip(i)[0] == times@[i]);
            assert(spec_blocks.skip(i)[0] == spec_blocks[i]);
            assert(views_of(block@) == spec_blocks[i]);
            assert(natives@.skip(i).drop_first() =~= natives@.skip(i + 1));
            assert(unicode_views(unicodes@).skip(i).drop_first() =~= unicode_views(
                unicodes@,
            ).skip(i + 1));
            assert(times@.skip(i).drop_first() =~= times@.skip(i + 1));
            assert(spec_blocks.skip(i).drop_first() =~= spec_blocks.skip(i + 1));
            assert(*last_flags == next_flags(natives@[i], flags_before));
        }
        blocks.push(block);
        idx = idx + 1;
    }
    proof {
        assert(natives@.skip(natives@.len() as int) =~= Seq::<NativeEvent>::empty());
    }
    blocks
}

/// Law: over a whole stream of native events, the cooked events of the
/// surviving blocks form a subsequence of the cooked events of the full
/// stream, whatever the callback chose to suppress.
pub proof fn lemma_stream_suppression(
    natives: Seq<NativeEvent>,
    unicodes: Seq<Option<UnicodeView>>,
    times: Seq<u64>,
    layout_type: u32,
    prev_flags: u64,
    keep: Seq<bool>,
)
    requires
        keep.len() == natives.len(),
    ensures
        ({
            let cooked_blocks = converted_stream(
                natives,
                unicodes,
                times,
                layout_type,
                prev_flags,
            ).map_values(|b: Seq<EventView>| crate::dispatch::cooked_only(b));
            crate::dispatch::is_subsequence(
                crate::dispatch::flatten_kept(cooked_blocks, keep),
                crate::dispatch::flatten_all(cooked_blocks),
            )
        }),
{
    lemma_converted_stream_len(natives, unicodes, times, layout_type, prev_flags);
    crate::dispatch::lemma_cooked_stream_subsequence(
        converted_stream(natives, unicodes, times, layout_type, prev_flags),
        keep,
    );
}

/// The ASCII name of a printable key, or the empty string where the key
/// has none.
pub open spec fn key_name(key: Key) -> Seq<char> {
    match key {
        Key::KeyA => "a"@,
        Key::KeyB => "b"@,
        Key::KeyC => "c"@,
        Key::KeyD => "d"@,
        Key::KeyE => "e"@,
        Key::KeyF => "f"@,
        Key::KeyG => "g"@,
        Key::KeyH => "h"@,
        Key::KeyI => "i"@,
        Key::KeyJ => "j"@,
        Key::KeyK => "k"@,
        Key::KeyL => "l"@,
        Key::KeyM => "m"@,
        Key::KeyN => "n"@,
        Key::KeyO => "o"@,
        Key::KeyP => "p"@,
        Key::KeyQ => "q"@,
        Key::KeyR => "r"@,
        Key::KeyS => "s"@,
        Key::KeyT => "t"@,
        Key::KeyU => "u"@,
        Key::KeyV => "v"@,
        Key::KeyW => "w"@,
        Key::KeyX => "x"@,
        Key::KeyY => "y"@,
        Key::KeyZ => "z"@,
        Key::Num0 => "0"@,
        Key::Num1 => "1"@,
        Key::Num2 => "2"@,
        Key::Num3 => "3"@,
        Key::Num4 => "4"@,
        Key::Num5 => "5"@,
        Key::Num6 => "6"@,
        Key::Num7 => "7"@,
        Key::Num8 => "8"@,
        Key::Num9 => "9"@,
        Key::Minus => "-"@,
        Key::Equal => "="@,
        Key::LeftBracket => "["@,
        Key::RightBracket => "]"@,
        Key::BackSlash => "\\"@,
        Key::SemiColon => ";"@,
        Key::Quote => "\""@,
        Key::Comma => ","@,
        Key::Dot => "."@,
        Key::Slash => "/"@,
        Key::BackQuote => "`"@,
        _ => ""@,
    }
}

/// The ASCII name of a printable key.
pub fn key_to_name(key: Key) -> (r: &'static str)
    ensures
        r@ == key_name(key),
{
    match key {
        Key::KeyA => "a",
        Key::KeyB => "b",
        Key::KeyC => "c",
        Key::KeyD => "d",
        Key::KeyE => "e",
        Key::KeyF => "f",
        Key::KeyG => "g",
        Key::KeyH => "h",
        Key::KeyI => "i",
        Key::KeyJ => "j",
        Key::KeyK => "k",
        Key::KeyL => "l",
        Key::KeyM => "m",
        Key::KeyN => "n",
        Key::KeyO => "o",
        Key::KeyP => "p",
        Key::KeyQ => "q",
        Key::KeyR => "r",
        Key::KeyS => "s",
        Key::KeyT => "t",
        Key::KeyU => "u",
        Key::KeyV => "v",
        Key::KeyW => "w",
        Key::KeyX => "x",
        Key::KeyY => "y",
        Key::KeyZ => "z",
        Key::Num0 => "0",
        Key::Num1 => "1",
        Key::Num2 => "2",
        Key::Num3 => "3",
        Key::Num4 => "4",
        Key::Num5 => "5",
        Key::Num6 => "6",
        Key::Num7 => "7",
        Key::Num8 => "8",
        Key::Num9 => "9",
        Key::Minus => "-",
        Key::Equal => "=",
        Key::LeftBracket => "[",
        Key::RightBracket => "]",
        Key::BackSlash => "\\",
        Key::SemiColon => ";",
        Key::Quote => "\"",
        Key::Comma => ",",
        Key::Dot => ".",
        Key::Slash => "/",
        Key::BackQuote => "`",
        _ => "",
    }
}

/// Law: a native key-down decodes to exactly one raw key press followed by
/// one cooked key press of the same key, with the same composed text; a
/// native key-up decodes likewise to one raw and one cooked release.
pub proof fn lemma_key_pair(
    ev: NativeEvent,
    unicode: Option<UnicodeView>,
    time: u64,
    layout_type: u32,
    prev_flags: u64,
)
    ensures
        ev.kind matches NativeEventKind::KeyDown { code, .. } ==> {
            let out = converted(ev, unicode, time, layout_type, prev_flags);
            let key = key_for(mapped_keycode(code, layout_type));
            &&& out.len() == 2
            &&& out[0].event_type == EventType::KeyPressRaw(key)
            &&& out[1].event_type == EventType::KeyPress(key)
            &&& out[0].unicode == out[1].unicode
        },
        ev.kind matches NativeEventKind::KeyUp { code } ==> {
            let out = converted(ev, unicode, time, layout_type, prev_flags);
            let key = key_for(mapped_keycode(code, layout_type));
            &&& out.len() == 2
            &&& out[0].event_type == EventType::KeyReleaseRaw(key)
            &&& out[1].event_type == EventType::KeyRelease(key)
        },
{
}

/// Law: the modifier-diff state machine.  A flags-changed event whose
/// word compares below the remembered one releases its key, any other
/// presses it, and the word is remembered either way — by the decoder's
/// own contract, the remembered word after any other event is unchanged.
pub proof fn lemma_flags_changed_diff(
    ev: NativeEvent,
    unicode: Option<UnicodeView>,
    time: u64,
    layout_type: u32,
    prev_flags: u64,
)
    ensures
        ev.kind matches NativeEventKind::FlagsChanged { code, flags } ==> {
            let out = converted(ev, unicode, time, layout_type, prev_flags);
            let key = key_for(mapped_keycode(code, layout_type));
            &&& out.len() == 2
            &&& flags < prev_flags ==> out[0].event_type == EventType::KeyReleaseRaw(key)
                && out[1].event_type == EventType::KeyRelease(key)
            &&& flags >= prev_flags ==> out[0].event_type == EventType::KeyPressRaw(key)
                && out[1].event_type == EventType::KeyPress(key)
            &&& next_flags(ev, prev_flags) == flags
        },
{
}

/// Law: within the events one native event decodes to, the raw variant
/// precedes the cooked one: a pair is always one raw then one cooked
/// event, and a lone event is always cooked.
pub proof fn lemma_raw_precedes_cooked(
    ev: NativeEvent,
    unicode: Option<UnicodeView>,
    time: u64,
    layout_type: u32,
    prev_flags: u64,
)
    ensures
        converted(ev, unicode, time, layout_type, prev_flags).len() <= 2,
        converted(ev, unicode, time, layout_type, prev_flags).len() == 2 ==> {
            let out = converted(ev, unicode, time, layout_type, prev_flags);
            !out[0].event_type.is_cooked() && out[1].event_type.is_cooked()
        },
        converted(ev, unicode, time, layout_type, prev_flags).len() == 1 ==> {
            let out = converted(ev, unicode, time, layout_type, prev_flags);
            out[0].event_type.is_cooked()
        },
{
}

} // verus!
