//! What holds of the dispatcher in every state.

use crate::action::Action;
use crate::binder::{step, Effect, Event};
use crate::bindings::{all_resolved, table_of, Resolved};
use crate::chord::Chord;
use crate::mode::Mode;
use crate::state::{startup_failure, tables_resolved, StateView};
use vstd::prelude::*;

verus! {

/// Startup fails only where a descriptor is without a chord: where the unlock
/// binding, every mode table and the fallback table are resolved, no
/// descriptor can be named as the failure.
pub proof fn lemma_resolved_startup_succeeds(
    unlock: Resolved,
    tables: Seq<(Mode, Vec<Resolved>)>,
    fallback: Seq<Resolved>,
    descriptor: &'static str,
)
    requires
        unlock.chord is Some,
        tables_resolved(tables),
        all_resolved(fallback),
    ensures
        !startup_failure(unlock, tables, fallback, descriptor),
{
}

/// A table binds exactly the chords of the bindings it was built from.
pub proof fn lemma_table_binds_given_chords(items: Seq<Resolved>, chord: Chord)
    ensures
        table_of(items).contains_key(chord) <==> exists|i: int|
            0 <= i < items.len() && (#[trigger] items[i]).chord == Some(chord),
    decreases items.len(),
{
    if items.len() > 0 {
        let rest = items.drop_last();
        lemma_table_binds_given_chords(rest, chord);
        if table_of(items).contains_key(chord) {
            if items.last().chord == Some(chord) {
                assert(items[items.len() - 1].chord == Some(chord));
            } else {
                let i = choose|i: int| 0 <= i < rest.len() && (#[trigger] rest[i]).chord == Some(chord);
                assert(items[i].chord == Some(chord));
            }
        }
        if exists|i: int| 0 <= i < items.len() && (#[trigger] items[i]).chord == Some(chord) {
            let i = choose|i: int| 0 <= i < items.len() && (#[trigger] items[i]).chord == Some(chord);
            if i < items.len() - 1 {
                assert(rest[i].chord == Some(chord));
            }
        }
    }
}

/// A binding is found again under its chord, with its action, unless a later
/// binding of the same chord took its place.
pub proof fn lemma_table_keeps_last_binding(items: Seq<Resolved>, i: int)
    requires
        0 <= i < items.len(),
        items[i].chord is Some,
        forall|j: int| i < j < items.len() ==> (#[trigger] items[j]).chord != items[i].chord,
    ensures
        table_of(items).contains_key(items[i].chord->0),
        table_of(items)[items[i].chord->0] == items[i].action,
    decreases items.len(),
{
    if i < items.len() - 1 {
        let rest = items.drop_last();
        assert(items[items.len() - 1].chord != items[i].chord);
        assert forall|j: int| i < j < rest.len() implies (#[trigger] rest[j]).chord
            != rest[i].chord by {
            assert(items[j].chord != items[i].chord);
        }
        lemma_table_keeps_last_binding(rest, i);
    }
}

/// In every state, whatever the mode and whatever the tables bind, a press of
/// the unlock chord switches the keyboard lock, and the unlock chord is among
/// the chords to capture.
pub proof fn lemma_unlock_always_toggles(state: StateView)
    ensures
        state.bound(state.unlock) == Some(Action::ToggleMode),
        step(state, Event::KeyPress(state.unlock)) == (
            state.toggled(),
            Effect::Regrab(state.toggled().grab_set()),
        ),
        state.grab_set().contains(state.unlock),
{
}

/// Switching the keyboard lock twice gives the state back as it was.
pub proof fn lemma_toggle_twice_is_identity(state: StateView)
    requires
        state.wf(),
    ensures
        state.toggled().wf(),
        state.toggled().toggled() == state,
        step(step(state, Event::KeyPress(state.unlock)).0, Event::KeyPress(state.unlock)).0
            == state,
{
}

/// While the keyboard is locked and `Locked` has a table of its own, a press
/// of a chord that is neither the unlock chord nor bound in that table is not
/// consumed and changes nothing, whatever the fallback table and the tables of
/// the other modes bind it to.
pub proof fn lemma_locked_passes_unbound(state: StateView, chord: Chord)
    requires
        state.mode == Mode::Locked,
        state.tables.contains_key(Mode::Locked),
        !state.tables[Mode::Locked].contains_key(chord),
        chord != state.unlock,
    ensures
        step(state, Event::KeyPress(chord)) == (state, Effect::NotConsumed),
{
}

/// An event changes the mode only by switching the keyboard lock, and then the
/// chords to capture are exactly the unlock chord and the chords of the table
/// that is active in the new mode.
pub proof fn lemma_transition_regrabs_exactly(state: StateView, event: Event)
    requires
        step(state, event).0.mode != state.mode,
    ensures
        step(state, event).0 == state.toggled(),
        step(state, event).1 == Effect::Regrab(
            step(state, event).0.active().dom().insert(state.unlock),
        ),
{
}

/// An event that does not switch the keyboard lock leaves the state as it was.
pub proof fn lemma_other_events_keep_state(state: StateView, event: Event)
    requires
        !(step(state, event).1 is Regrab),
    ensures
        step(state, event).0 == state,
{
}

/// Events that are not key presses pass through.
pub proof fn lemma_non_key_events_pass(state: StateView)
    ensures
        step(state, Event::Other) == (state, Effect::NotConsumed),
{
}

} // verus!
