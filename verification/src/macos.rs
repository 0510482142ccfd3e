//! The macOS backend: decoding event-tap records, keyboard state, session
//! lifecycle, and synthesis planning.

pub mod common;
pub mod grab;
pub mod keyboard;
pub mod listen;
pub mod simulate;
