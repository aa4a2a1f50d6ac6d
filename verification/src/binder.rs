//! The dispatcher: what each input event does, and which chords are to be
//! captured.

use crate::action::Action;
use crate::chord::Chord;
use crate::state::{KeyBinderState, StateView};
use vstd::prelude::*;

verus! {

/// An input event, as far as the dispatcher looks at it.
#[derive(Clone, Copy, PartialEq, Eq, Structural, Hash, Debug)]
pub enum Event {
    /// A key was pressed with these modifiers held.
    KeyPress(Chord),
    /// Any other kind of event.
    Other,
}

/// What an event does, as mathematics.
#[verifier::ext_equal]
pub enum Effect {
    /// Nothing; the event is left to whoever comes next.
    NotConsumed,
    /// The caller is to run this action.
    Invoke(Action),
    /// The keyboard lock was switched; these chords are to be captured.
    Regrab(Set<Chord>),
}

/// What the dispatcher decided for one event.
#[derive(PartialEq, Eq, Debug)]
pub enum Outcome {
    /// The event is none of the dispatcher's; other hooks may handle it.
    NotConsumed,
    /// The chord is bound to this action, which the caller is to run. If the
    /// action fails, the caller passes the failure on.
    Invoke(Action),
    /// The keyboard lock was switched. The caller is to capture exactly these
    /// chords, in one request that releases every other.
    Regrab(Vec<Chord>),
}

impl View for Outcome {
    type V = Effect;

    open spec fn view(&self) -> Effect {
        match *self {
            Outcome::NotConsumed => Effect::NotConsumed,
            Outcome::Invoke(action) => Effect::Invoke(action),
            Outcome::Regrab(chords) => Effect::Regrab(chords@.to_set()),
        }
    }
}

impl Outcome {
    /// A list of chords to capture names each chord once.
    pub open spec fn wf(&self) -> bool {
        match *self {
            Outcome::Regrab(chords) => chords@.no_duplicates(),
            _ => true,
        }
    }

    /// Whether the dispatcher handled the event.
    pub fn consumed(&self) -> (r: bool)
        ensures
            r == !(self@ is NotConsumed),
    {
        match self {
            Outcome::NotConsumed => false,
            _ => true,
        }
    }
}

/// The state after `event`, and what the event does. A press of the unlock
/// chord, or of a chord that the active table binds to the lock switch,
/// switches the lock. A press of a chord bound to any other action leaves the
/// state alone and has that action run. Every other event passes through.
pub open spec fn step(state: StateView, event: Event) -> (StateView, Effect) {
    match event {
        Event::KeyPress(chord) => match state.bound(chord) {
            Some(Action::ToggleMode) => (
                state.toggled(),
                Effect::Regrab(state.toggled().grab_set()),
            ),
            Some(action) => (state, Effect::Invoke(action)),
            None => (state, Effect::NotConsumed),
        },
        Event::Other => (state, Effect::NotConsumed),
    }
}

/// The hook that the window manager calls at startup and on every event.
#[derive(Clone, Copy, Debug)]
pub struct KeyBinder;

impl KeyBinder {
    /// The chords that are to be captured in the current mode, each once: the
    /// unlock chord and those of the active table. The caller hands them to
    /// the input device in one request that replaces what was captured before.
    pub fn bind(&self, state: &KeyBinderState) -> (grab: Vec<Chord>)
        ensures
            grab@.no_duplicates(),
            grab@.to_set() == state@.grab_set(),
    {
        let table = state.active_bindings();
        let unlock = state.unlock_chord();
        let mut grab = table.chords();
        if table.get(unlock).is_none() {
            let ghost before = grab@;
            grab.push(unlock);
            assert(grab@.to_set() =~= before.to_set().insert(unlock)) by {
                assert forall|c: Chord| before.to_set().insert(unlock).contains(
                    c,
                ) implies grab@.to_set().contains(c) by {
                    if c == unlock {
                        assert(grab@[before.len() as int] == c);
                    } else {
                        let j = choose|j: int| 0 <= j < before.len() && before[j] == c;
                        assert(grab@[j] == c);
                    }
                }
            }
            assert forall|i: int| 0 <= i < before.len() implies before[i] != unlock by {
                assert(before.to_set().contains(before[i]));
            }
        } else {
            assert(grab@.to_set() =~= state@.grab_set());
        }
        grab
    }

    /// Handles one input event: moves `state` on and says what the caller is
    /// to do.
    pub fn call(&self, state: &mut KeyBinderState, event: &Event) -> (outcome: Outcome)
        ensures
            final(state)@ == step(old(state)@, *event).0,
            outcome@ == step(old(state)@, *event).1,
            outcome.wf(),
            final(state)@.wf(),
    {
        proof {
            use_type_invariant(&*state);
        }
        match event {
            Event::KeyPress(chord) => {
                if *chord == state.unlock_chord() {
                    Outcome::Regrab(state.toggle_locked())
                } else {
                    match state.active_bindings().get(*chord) {
                        Some(Action::ToggleMode) => Outcome::Regrab(state.toggle_locked()),
                        Some(action) => Outcome::Invoke(action),
                        None => Outcome::NotConsumed,
                    }
                }
            },
            Event::Other => Outcome::NotConsumed,
        }
    }
}

} // verus!
