//! The modifier-tracking decoder: four flags, the transition that each
//! keyboard event causes, and the question that a key press puts to the
//! key-code table.

use vstd::prelude::*;
use crate::event::{Control, KeyboardEvent, Modifier, VirtualKeyCode};

verus! {

/// The decoder's flags as a mathematical value.
pub struct DecoderState {
    /// The left shift key has gone down and not come up since.
    pub left_shift_held: bool,
    /// The right shift key has gone down and not come up since.
    pub right_shift_held: bool,
    /// Caps lock has been pressed an odd number of times.
    pub caps_lock_active: bool,
    /// Num lock has been pressed an odd number of times.
    pub num_lock_active: bool,
}

/// A held-flag after `event`: set by the press of `shift`, cleared by its
/// release, and otherwise as it was.
pub open spec fn held_after(held: bool, shift: Modifier, event: KeyboardEvent) -> bool {
    if event.is_press_of(VirtualKeyCode::Modifier(shift)) {
        true
    } else if event.is_release_of(VirtualKeyCode::Modifier(shift)) {
        false
    } else {
        held
    }
}

/// A lock flag after `event`: flipped by the press of `lock`, and otherwise
/// as it was.
pub open spec fn lock_after(active: bool, lock: Modifier, event: KeyboardEvent) -> bool {
    active != event.is_press_of(VirtualKeyCode::Modifier(lock))
}

impl DecoderState {
    /// The state of a decoder that has seen no event: every flag false.
    pub open spec fn initial() -> DecoderState {
        DecoderState {
            left_shift_held: false,
            right_shift_held: false,
            caps_lock_active: false,
            num_lock_active: false,
        }
    }

    /// The held-flag that belongs to `shift`. A key that is no shift key has
    /// none, and counts as not held.
    pub open spec fn held(self, shift: Modifier) -> bool {
        match shift {
            Modifier::LeftShift => self.left_shift_held,
            Modifier::RightShift => self.right_shift_held,
            _ => false,
        }
    }

    /// The shift that holds Enter back: both shift keys held at once.
    pub open spec fn both_shifts_held(self) -> bool {
        self.left_shift_held && self.right_shift_held
    }

    /// The state after `event` has been decoded.
    pub open spec fn after(self, event: KeyboardEvent) -> DecoderState {
        DecoderState {
            left_shift_held: held_after(self.left_shift_held, Modifier::LeftShift, event),
            right_shift_held: held_after(self.right_shift_held, Modifier::RightShift, event),
            caps_lock_active: lock_after(self.caps_lock_active, Modifier::CapsLock, event),
            num_lock_active: lock_after(self.num_lock_active, Modifier::NumLock, event),
        }
    }

    /// What decoding `event` in this state asks of the key-code table: the
    /// key and the four flags as they stand, for the press of a key that is
    /// no modifier, and nothing for any other event.
    pub open spec fn lookup(self, event: KeyboardEvent) -> Option<
        (VirtualKeyCode, bool, bool, bool, bool),
    > {
        match event {
            KeyboardEvent::Down(VirtualKeyCode::Control(key)) => Some(
                (
                    VirtualKeyCode::Control(key),
                    self.left_shift_held,
                    self.right_shift_held,
                    self.caps_lock_active,
                    self.num_lock_active,
                ),
            ),
            _ => None,
        }
    }

    /// Whether `event` ends the line in this state: Enter comes up while the
    /// two shift keys are not both held.
    pub open spec fn is_commit_signal(self, event: KeyboardEvent) -> bool {
        event.is_release_of(VirtualKeyCode::Control(Control::Enter)) && !self.both_shifts_held()
    }

    /// The state after all of `events` have been decoded, first to last.
    pub open spec fn after_all(self, events: Seq<KeyboardEvent>) -> DecoderState
        decreases events.len(),
    {
        if events.len() == 0 {
            self
        } else {
            self.after_all(events.drop_last()).after(events.last())
        }
    }
}

/// Tracks the shift and lock keys across a stream of keyboard events and
/// turns key presses into characters.
#[derive(Clone, Copy, Debug, PartialEq, Eq)]
pub struct KBInputDecoder {
    lshift: bool,
    rshift: bool,
    caps_lock: bool,
    num_lock: bool,
}

impl View for KBInputDecoder {
    type V = DecoderState;

    closed spec fn view(&self) -> DecoderState {
        DecoderState {
            left_shift_held: self.lshift,
            right_shift_held: self.rshift,
            caps_lock_active: self.caps_lock,
            num_lock_active: self.num_lock,
        }
    }
}

impl KBInputDecoder {
    /// A decoder that has seen no event.
    pub fn new() -> (decoder: Self)
        ensures
            decoder@ == DecoderState::initial(),
    {
        Self { lshift: false, rshift: false, caps_lock: false, num_lock: false }
    }

    /// Whether the left shift key is held.
    pub fn lshift(&self) -> (held: bool)
        ensures
            held == self@.left_shift_held,
    {
        self.lshift
    }

    /// Whether the right shift key is held.
    pub fn rshift(&self) -> (held: bool)
        ensures
            held == self@.right_shift_held,
    {
        self.rshift
    }

    /// Whether caps lock is active.
    pub fn caps_lock(&self) -> (active: bool)
        ensures
            active == self@.caps_lock_active,
    {
        self.caps_lock
    }

    /// Whether num lock is active.
    pub fn num_lock(&self) -> (active: bool)
        ensures
            active == self@.num_lock_active,
    {
        self.num_lock
    }

    /// Whether both shift keys are held.
    pub fn shift(&self) -> (held: bool)
        ensures
            held == self@.both_shifts_held(),
    {
        self.lshift && self.rshift
    }

    /// Whether `event` is the Enter key coming up while the two shift keys
    /// are not both held. The decoder is left as it is.
    pub fn ret(&self, event: &KeyboardEvent) -> (commit: bool)
        ensures
            commit == self@.is_commit_signal(*event),
            *event is Down ==> !commit,
            self@.both_shifts_held() ==> !commit,
            event.is_release_of(VirtualKeyCode::Control(Control::Enter))
                && !self@.left_shift_held && !self@.right_shift_held ==> commit,
    {
        match event {
            KeyboardEvent::Up(VirtualKeyCode::Control(key)) => match key {
                Control::Enter => !self.shift(),
                _ => false,
            },
            _ => false,
        }
    }

    /// Decodes one event. A shift key sets or clears its held-flag, the press
    /// of a lock key flips its flag, and the press of any key that is no
    /// modifier is looked up in `table` under the flags as they stand; the
    /// character that `table` gives is returned. Every other event leaves the
    /// decoder unchanged and yields nothing.
    pub fn parse_char<F>(&mut self, event: &KeyboardEvent, table: F) -> (decoded: Option<char>)
        where F: Fn(VirtualKeyCode, bool, bool, bool, bool) -> char
        requires
            old(self)@.lookup(*event) matches Some(query) ==> table.requires(query),
        ensures
            final(self)@ == old(self)@.after(*event),
            match old(self)@.lookup(*event) {
                Some(query) => decoded matches Some(c) && table.ensures(query, c),
                None => decoded is None,
            },
    {
        match event {
            KeyboardEvent::Up(VirtualKeyCode::Modifier(key)) => match key {
                Modifier::LeftShift => {
                    self.lshift = false;
                    None
                },
                Modifier::RightShift => {
                    self.rshift = false;
                    None
                },
                _ => None,
            },
            KeyboardEvent::Up(_) => None,
            KeyboardEvent::Down(VirtualKeyCode::Modifier(key)) => match key {
                Modifier::LeftShift => {
                    self.lshift = true;
                    None
                },
                Modifier::RightShift => {
                    self.rshift = true;
                    None
                },
                Modifier::CapsLock => {
                    self.caps_lock = !self.caps_lock;
                    None
                },
                Modifier::NumLock => {
                    self.num_lock = !self.num_lock;
                    None
                },
                _ => None,
            },
            KeyboardEvent::Down(letter) => Some(
                table(*letter, self.lshift, self.rshift, self.caps_lock, self.num_lock),
            ),
        }
    }
}

} // verus!
