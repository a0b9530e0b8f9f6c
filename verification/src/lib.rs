//! Keyboard decoding for a small console: modifier tracking, character lookup
//! through a caller-supplied key-code table, and line editing.

pub mod console;
pub mod decoder;
pub mod event;
pub mod trace;

pub use console::{Console, ConsoleAction, ConsoleState};
pub use decoder::{DecoderState, KBInputDecoder};
pub use event::{Control, KeyboardEvent, Modifier, VirtualKeyCode};
