//! The Windows backend: hook-event assembly, Raw Input decoding, the
//! touchpad scroll tracker, and session lifecycle.

pub mod common;
pub mod grab;
pub mod listen;
