//! Shared Windows pieces: the wheel detent size and hook-event assembly.

use crate::rdev::{Event, EventType, EventView, UnicodeInfo, opt_unicode_view};
use vstd::prelude::*;

verus! {

/// One native wheel detent, as the hook reports deltas.
pub const WHEEL_DELTA: i64 = 120;

/// Assembles the portable event a hook invocation delivers from the
/// decoded native fields: the hook knows no USB HID usage, so that field
/// is zero.
pub fn hook_event(
    event_type: EventType,
    time: u64,
    unicode: Option<UnicodeInfo>,
    platform_code: u32,
    position_code: u32,
    extra_data: i64,
    is_synthetic: bool,
) -> (r: Event)
    ensures
        r@ == (EventView {
            event_type,
            time,
            unicode: opt_unicode_view(unicode),
            platform_code,
            position_code,
            usb_hid: 0u32,
            extra_data,
            is_synthetic,
        }),
{
    Event {
        event_type,
        time,
        unicode,
        platform_code,
        position_code,
        usb_hid: 0,
        extra_data,
        is_synthetic,
    }
}

} // verus!
