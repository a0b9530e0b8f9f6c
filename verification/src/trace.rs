//! What holds of the decoder and the console over whole sequences of events.

use vstd::prelude::*;
use crate::console::ConsoleState;
use crate::decoder::DecoderState;
use crate::event::{Control, KeyboardEvent, Modifier, VirtualKeyCode};

verus! {

/// How often `key` is pressed in `events`.
pub open spec fn presses(events: Seq<KeyboardEvent>, key: VirtualKeyCode) -> nat
    decreases events.len(),
{
    if events.len() == 0 {
        0
    } else {
        presses(events.drop_last(), key) + if events.last().is_press_of(key) {
            1nat
        } else {
            0nat
        }
    }
}

/// Whether `key` is pressed an odd number of times in `events`.
pub open spec fn pressed_odd_times(events: Seq<KeyboardEvent>, key: VirtualKeyCode) -> bool {
    presses(events, key) % 2 == 1
}

/// The console after one turn on each of `events`, first to last, where no
/// turn decodes a character.
pub open spec fn after_undecoded(console: ConsoleState, events: Seq<KeyboardEvent>) -> ConsoleState
    decreases events.len(),
{
    if events.len() == 0 {
        console
    } else {
        after_undecoded(console, events.drop_last()).after(events.last(), None)
    }
}

/// A held-flag changes only with its own key: events in which the shift key
/// `shift` takes no part leave its flag as it was.
pub proof fn lemma_held_flag_without_its_key(
    state: DecoderState,
    events: Seq<KeyboardEvent>,
    shift: Modifier,
)
    requires
        shift == Modifier::LeftShift || shift == Modifier::RightShift,
        forall|j: int|
            0 <= j < events.len() ==> (#[trigger] events[j]).key() != VirtualKeyCode::Modifier(
                shift,
            ),
    ensures
        state.after_all(events).held(shift) == state.held(shift),
    decreases events.len(),
{
    if events.len() > 0 {
        lemma_held_flag_without_its_key(state, events.drop_last(), shift);
    }
}

/// A held-flag tells what its key did last: after a sequence in which the
/// last event of the shift key `shift` stands at `i`, the flag is true where
/// that event is a press and false where it is a release.
pub proof fn lemma_held_flag_follows_last_event(
    state: DecoderState,
    events: Seq<KeyboardEvent>,
    shift: Modifier,
    i: int,
)
    requires
        shift == Modifier::LeftShift || shift == Modifier::RightShift,
        0 <= i < events.len(),
        events[i].key() == VirtualKeyCode::Modifier(shift),
        forall|j: int|
            i < j < events.len() ==> (#[trigger] events[j]).key() != VirtualKeyCode::Modifier(
                shift,
            ),
    ensures
        state.after_all(events).held(shift) == (events[i] is Down),
    decreases events.len(),
{
    if i < events.len() - 1 {
        lemma_held_flag_follows_last_event(state, events.drop_last(), shift, i);
    }
}

/// A lock flag has flipped exactly when its key has been pressed an odd
/// number of times, whatever else happened in between. From a fresh decoder
/// the flag is therefore true after an odd number of presses and false after
/// an even number.
pub proof fn lemma_lock_flags_count_presses(state: DecoderState, events: Seq<KeyboardEvent>)
    ensures
        state.after_all(events).caps_lock_active == (state.caps_lock_active != pressed_odd_times(
            events,
            VirtualKeyCode::Modifier(Modifier::CapsLock),
        )),
        state.after_all(events).num_lock_active == (state.num_lock_active != pressed_odd_times(
            events,
            VirtualKeyCode::Modifier(Modifier::NumLock),
        )),
    decreases events.len(),
{
    if events.len() > 0 {
        lemma_lock_flags_count_presses(state, events.drop_last());
    }
}

/// Pressing a lock key twice in a row leaves the decoder as it was.
pub proof fn lemma_double_toggle_restores(state: DecoderState, lock: Modifier)
    requires
        lock == Modifier::CapsLock || lock == Modifier::NumLock,
    ensures
        state.after(KeyboardEvent::Down(VirtualKeyCode::Modifier(lock))).after(
            KeyboardEvent::Down(VirtualKeyCode::Modifier(lock)),
        ) == state,
{
}

/// In a sequence that starts at a fresh decoder, a key press before which no
/// shift key took part is looked up with both shift flags false and with
/// each lock flag telling whether its key was pressed an odd number of times
/// before.
pub proof fn lemma_lookup_without_shift_events(events: Seq<KeyboardEvent>, i: int)
    requires
        0 <= i < events.len(),
        forall|j: int| 0 <= j < i ==> !(#[trigger] events[j]).key().is_shift(),
        events[i] is Down,
        events[i].key() is Control,
    ensures
        DecoderState::initial().after_all(events.take(i)).lookup(events[i]) == Some(
            (
                events[i].key(),
                false,
                false,
                pressed_odd_times(events.take(i), VirtualKeyCode::Modifier(Modifier::CapsLock)),
                pressed_odd_times(events.take(i), VirtualKeyCode::Modifier(Modifier::NumLock)),
            ),
        ),
{
    let before = events.take(i);
    lemma_held_flag_without_its_key(DecoderState::initial(), before, Modifier::LeftShift);
    lemma_held_flag_without_its_key(DecoderState::initial(), before, Modifier::RightShift);
    lemma_lock_flags_count_presses(DecoderState::initial(), before);
}

/// In a sequence that starts at a fresh decoder, a key press before which no
/// shift key took part, and before which each lock key was pressed an even
/// number of times, is looked up with all four flags false.
pub proof fn lemma_plain_lookup_without_modifiers(events: Seq<KeyboardEvent>, i: int)
    requires
        0 <= i < events.len(),
        forall|j: int| 0 <= j < i ==> !(#[trigger] events[j]).key().is_shift(),
        !pressed_odd_times(events.take(i), VirtualKeyCode::Modifier(Modifier::CapsLock)),
        !pressed_odd_times(events.take(i), VirtualKeyCode::Modifier(Modifier::NumLock)),
        events[i] is Down,
        events[i].key() is Control,
    ensures
        DecoderState::initial().after_all(events.take(i)).lookup(events[i]) == Some(
            (events[i].key(), false, false, false, false),
        ),
{
    lemma_lookup_without_shift_events(events, i);
}

/// While left shift is held, a key press is looked up with the left shift
/// flag true and the other three flags as they were before left shift went
/// down. Once left shift has come up again, the next key press is looked up
/// with the left shift flag false and the other three flags still as they
/// were. With right shift not held at the start, both shift flags are
/// therefore false again.
pub proof fn lemma_left_shift_held_then_released(
    state: DecoderState,
    letter: Control,
    next: Control,
)
    ensures
        ({
            let held = state.after(
                KeyboardEvent::Down(VirtualKeyCode::Modifier(Modifier::LeftShift)),
            );
            let released = held.after(KeyboardEvent::Down(VirtualKeyCode::Control(letter))).after(
                KeyboardEvent::Up(VirtualKeyCode::Modifier(Modifier::LeftShift)),
            );
            &&& held.lookup(KeyboardEvent::Down(VirtualKeyCode::Control(letter))) == Some(
                (
                    VirtualKeyCode::Control(letter),
                    true,
                    state.right_shift_held,
                    state.caps_lock_active,
                    state.num_lock_active,
                ),
            )
            &&& released.lookup(KeyboardEvent::Down(VirtualKeyCode::Control(next))) == Some(
                (
                    VirtualKeyCode::Control(next),
                    false,
                    state.right_shift_held,
                    state.caps_lock_active,
                    state.num_lock_active,
                ),
            )
        }),
{
}

/// Whether `events` holds the release of `key`.
pub open spec fn releases(events: Seq<KeyboardEvent>, key: VirtualKeyCode) -> bool {
    exists|j: int| 0 <= j < events.len() && (#[trigger] events[j]).is_release_of(key)
}

/// Whether `events` holds releases only, and none of a shift key that is
/// held in `state`: no press went before any of them.
pub open spec fn unmatched_releases(state: DecoderState, events: Seq<KeyboardEvent>) -> bool {
    &&& forall|j: int| 0 <= j < events.len() ==> (#[trigger] events[j]) is Up
    &&& releases(events, VirtualKeyCode::Modifier(Modifier::LeftShift)) ==> !state.left_shift_held
    &&& releases(events, VirtualKeyCode::Modifier(Modifier::RightShift))
        ==> !state.right_shift_held
}

/// Releases that no press went before do nothing to the decoder: it ends as
/// it began, and none of the events asks anything of the key-code table.
pub proof fn lemma_unmatched_releases_are_inert(state: DecoderState, events: Seq<KeyboardEvent>)
    requires
        unmatched_releases(state, events),
    ensures
        state.after_all(events) == state,
        forall|j: int| 0 <= j < events.len() ==> state.lookup(#[trigger] events[j]) is None,
    decreases events.len(),
{
    if events.len() > 0 {
        lemma_unmatched_releases_are_inert(state, events.drop_last());
    }
}

/// Releases that no press went before never add to the line: after a turn
/// on each of them the console's decoder is as it began, and the line is
/// either what it was or, where Enter was among the releases and committed
/// it, empty.
pub proof fn lemma_unmatched_releases_never_append(
    console: ConsoleState,
    events: Seq<KeyboardEvent>,
)
    requires
        unmatched_releases(console.decoder, events),
    ensures
        after_undecoded(console, events).decoder == console.decoder,
        after_undecoded(console, events).line == if exists|j: int|
            0 <= j < events.len() && console.decoder.is_commit_signal(#[trigger] events[j]) {
            Seq::empty()
        } else {
            console.line
        },
    decreases events.len(),
{
    if events.len() > 0 {
        let earlier = events.drop_last();
        lemma_unmatched_releases_never_append(console, earlier);
        assert forall|j: int| 0 <= j < earlier.len() implies earlier[j] == events[j] by {}
    }
}

} // verus!
