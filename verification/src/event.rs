//! Keyboard events as they arrive from the event stream.

use vstd::prelude::*;

verus! {

/// A key that changes how later keys are read and produces no character itself.
#[derive(Clone, Copy, Debug, PartialEq, Eq, Structural)]
pub enum Modifier {
    LeftShift,
    RightShift,
    CapsLock,
    NumLock,
    /// Any further modifier, named by its position code. The decoder passes
    /// over these without reading the code.
    Other(u16),
}

/// A key that is not a modifier: a printable or a control key.
#[derive(Clone, Copy, Debug, PartialEq, Eq, Structural)]
pub enum Control {
    Enter,
    /// Any other key, named by its position code. The decoder hands the code
    /// to the key-code table without reading it.
    Key(u16),
}

/// The identity of a key.
#[derive(Clone, Copy, Debug, PartialEq, Eq, Structural)]
pub enum VirtualKeyCode {
    Modifier(Modifier),
    Control(Control),
}

/// One occurrence on the keyboard: a key went down or came back up.
#[derive(Clone, Copy, Debug, PartialEq, Eq, Structural)]
pub enum KeyboardEvent {
    Up(VirtualKeyCode),
    Down(VirtualKeyCode),
}

impl VirtualKeyCode {
    /// Whether the key is one of the two shift keys.
    pub open spec fn is_shift(self) -> bool {
        self == VirtualKeyCode::Modifier(Modifier::LeftShift)
            || self == VirtualKeyCode::Modifier(Modifier::RightShift)
    }
}

impl KeyboardEvent {
    /// The key that the event is about.
    pub open spec fn key(self) -> VirtualKeyCode {
        match self {
            KeyboardEvent::Up(key) => key,
            KeyboardEvent::Down(key) => key,
        }
    }

    /// The press of `key`.
    pub open spec fn is_press_of(self, key: VirtualKeyCode) -> bool {
        self == KeyboardEvent::Down(key)
    }

    /// The release of `key`.
    pub open spec fn is_release_of(self, key: VirtualKeyCode) -> bool {
        self == KeyboardEvent::Up(key)
    }
}

} // verus!
