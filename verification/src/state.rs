//! The dispatcher's state: the binding table of each mode, the fallback table,
//! the current mode and the reserved unlock chord.

use crate::action::Action;
use crate::binder::KeyBinder;
use crate::bindings::{all_resolved, is_first_unresolved, names_first_unresolved, table_of, Bindings, ResolutionError, Resolved};
use crate::chord::Chord;
use crate::mode::{lemma_index_injective, Mode};
use std::collections::HashMap;
use vstd::prelude::*;

verus! {

broadcast use vstd::std_specs::hash::group_hash_axioms;

/// The dispatcher's state as mathematics.
#[verifier::ext_equal]
pub struct StateView {
    /// The current mode.
    pub mode: Mode,
    /// The reserved chord that switches the keyboard lock in every mode.
    pub unlock: Chord,
    /// The binding table of each mode that has one of its own.
    pub tables: Map<Mode, Map<Chord, Action>>,
    /// The table of the modes that have none of their own.
    pub fallback: Map<Chord, Action>,
}

impl StateView {
    /// The current mode is one of the two that the lock switch moves between.
    pub open spec fn wf(self) -> bool {
        self.mode.is_switch_mode()
    }

    /// The table that lookups go to: the current mode's own, or the fallback
    /// table where it has none.
    pub open spec fn active(self) -> Map<Chord, Action> {
        if self.tables.contains_key(self.mode) {
            self.tables[self.mode]
        } else {
            self.fallback
        }
    }

    /// What a press of `chord` does. The unlock chord is looked at before any
    /// table, so it switches the lock whatever the active table binds.
    pub open spec fn bound(self, chord: Chord) -> Option<Action> {
        if chord == self.unlock {
            Some(Action::ToggleMode)
        } else if self.active().contains_key(chord) {
            Some(self.active()[chord])
        } else {
            None
        }
    }

    /// The chords to capture from the input device: those of the active table
    /// and the unlock chord.
    pub open spec fn grab_set(self) -> Set<Chord> {
        self.active().dom().insert(self.unlock)
    }

    /// The state after the keyboard lock was switched: only the mode changes.
    pub open spec fn toggled(self) -> StateView {
        StateView { mode: self.mode.spec_toggled(), ..self }
    }
}

/// Every table of `tables` is fully resolved.
pub open spec fn tables_resolved(tables: Seq<(Mode, Vec<Resolved>)>) -> bool {
    forall|t: int| 0 <= t < tables.len() ==> all_resolved((#[trigger] tables[t]).1@)
}

/// The mode tables that `tables` describe; where a mode occurs more than once
/// its last table stands.
pub open spec fn tables_of(tables: Seq<(Mode, Vec<Resolved>)>) -> Map<Mode, Map<Chord, Action>>
    decreases tables.len(),
{
    if tables.len() == 0 {
        Map::empty()
    } else {
        tables_of(tables.drop_last()).insert(tables.last().0, table_of(tables.last().1@))
    }
}

/// `descriptor` is the first descriptor without a chord, looking at the unlock
/// binding, then at the mode tables in their order, then at the fallback table.
pub open spec fn startup_failure(
    unlock: Resolved,
    tables: Seq<(Mode, Vec<Resolved>)>,
    fallback: Seq<Resolved>,
    descriptor: &'static str,
) -> bool {
    if unlock.chord is None {
        descriptor == unlock.descriptor
    } else if !tables_resolved(tables) {
        exists|t: int|
            0 <= t < tables.len() && tables_resolved(tables.take(t)) && names_first_unresolved(
                (#[trigger] tables[t]).1@,
                descriptor,
            )
    } else {
        names_first_unresolved(fallback, descriptor)
    }
}

/// The mode tables that a map over mode indices stands for.
spec fn by_mode(keyed: Map<u8, Bindings>) -> Map<Mode, Map<Chord, Action>> {
    Map::new(
        |m: Mode| keyed.contains_key(m.spec_index()),
        |m: Mode| keyed[m.spec_index()]@,
    )
}

/// Storing under a mode's index gives that mode its table and touches no other.
proof fn lemma_by_mode_insert(keyed: Map<u8, Bindings>, mode: Mode, table: Bindings)
    ensures
        by_mode(keyed.insert(mode.spec_index(), table)) == by_mode(keyed).insert(mode, table@),
{
    assert forall|m: Mode| m.spec_index() == mode.spec_index() implies m == mode by {
        lemma_index_injective(m, mode);
    }
    assert(by_mode(keyed.insert(mode.spec_index(), table)) =~= by_mode(keyed).insert(
        mode,
        table@,
    ));
}

/// The shared state of the dispatcher. It starts in `Normal`, and nothing but
/// the lock switch changes its mode.
pub struct KeyBinderState {
    bindings: HashMap<u8, Bindings>,
    current_mode: Mode,
    fallback_bindings: Bindings,
    unlock: Chord,
}

impl View for KeyBinderState {
    type V = StateView;

    closed spec fn view(&self) -> StateView {
        StateView {
            mode: self.current_mode,
            unlock: self.unlock,
            tables: by_mode(self.bindings@),
            fallback: self.fallback_bindings@,
        }
    }
}

impl KeyBinderState {
    /// The current mode is one of the two that the lock switch moves between.
    #[verifier::type_invariant]
    pub open spec fn inv(&self) -> bool {
        self@.wf()
    }

    /// Builds the state from the resolved unlock binding, the resolved table
    /// of each mode that has one, and the resolved fallback table. Of `unlock`
    /// only the descriptor and the chord are looked at: the unlock chord
    /// always switches the lock. The state starts in `Normal`. Succeeds
    /// exactly when every descriptor has a chord; otherwise fails on the first
    /// one that has none, and names it.
    pub fn with_bindings(
        unlock: Resolved,
        tables: &Vec<(Mode, Vec<Resolved>)>,
        fallback: &Vec<Resolved>,
    ) -> (r: Result<KeyBinderState, ResolutionError>)
        ensures
            r is Ok <==> unlock.chord is Some && tables_resolved(tables@) && all_resolved(
                fallback@,
            ),
            match r {
                Ok(state) => {
                    &&& unlock.chord is Some
                    &&& tables_resolved(tables@)
                    &&& all_resolved(fallback@)
                    &&& state@ == (StateView {
                        mode: Mode::Normal,
                        unlock: unlock.chord->0,
                        tables: tables_of(tables@),
                        fallback: table_of(fallback@),
                    })
                },
                Err(e) => startup_failure(unlock, tables@, fallback@, e.descriptor),
            },
    {
        let unlock_chord = match unlock.chord {
            Some(chord) => chord,
            None => {
                return Err(ResolutionError { descriptor: unlock.descriptor });
            },
        };
        let mut bindings: HashMap<u8, Bindings> = HashMap::new();
        let mut t: usize = 0;
        assert(by_mode(bindings@) =~= tables_of(tables@.take(0)));
        while t < tables.len()
            invariant
                t <= tables.len(),
                unlock.chord is Some,
                tables_resolved(tables@.take(t as int)),
                by_mode(bindings@) == tables_of(tables@.take(t as int)),
            decreases tables.len() - t,
        {
            let mode = tables[t].0;
            match Bindings::from_resolved(&tables[t].1) {
                Ok(table) => {
                    proof {
                        lemma_by_mode_insert(bindings@, mode, table);
                        assert(tables@.take(t + 1).drop_last() =~= tables@.take(t as int));
                    }
                    bindings.insert(mode.index(), table);
                },
                Err(e) => {
                    proof {
                        let items = tables@[t as int].1@;
                        let i = choose|i: int|
                            is_first_unresolved(items, i) && (#[trigger] items[i]).descriptor
                                == e.descriptor;
                        assert(items[i].chord is None);
                        assert(!tables_resolved(tables@));
                    }
                    return Err(e);
                },
            }
            t += 1;
        }
        assert(tables@.take(t as int) =~= tables@);
        match Bindings::from_resolved(fallback) {
            Ok(fallback_bindings) => Ok(
                KeyBinderState {
                    bindings,
                    current_mode: Mode::Normal,
                    fallback_bindings,
                    unlock: unlock_chord,
                },
            ),
            Err(e) => Err(e),
        }
    }

    /// Switches the keyboard lock: `Locked` gives way to `Normal`, `Normal` to
    /// `Locked`; the tables stay as they are. Returns the chords that are to
    /// be captured from now on, each once; the caller hands them to the input
    /// device in one request that replaces what was captured before.
    pub fn toggle_locked(&mut self) -> (grab: Vec<Chord>)
        ensures
            final(self)@ == old(self)@.toggled(),
            final(self)@.wf(),
            grab@.no_duplicates(),
            grab@.to_set() == final(self)@.grab_set(),
    {
        self.current_mode = self.current_mode.toggled();
        KeyBinder.bind(self)
    }

    /// The current mode.
    pub fn current_mode(&self) -> (r: Mode)
        ensures
            r == self@.mode,
            r.is_switch_mode(),
    {
        proof {
            use_type_invariant(self);
        }
        self.current_mode
    }

    /// The reserved unlock chord.
    pub fn unlock_chord(&self) -> (r: Chord)
        ensures
            r == self@.unlock,
    {
        self.unlock
    }

    /// The table that lookups go to in the current mode.
    pub fn active_bindings(&self) -> (r: &Bindings)
        ensures
            r@ == self@.active(),
    {
        let index = self.current_mode.index();
        match self.bindings.get(&index) {
            Some(table) => table,
            None => &self.fallback_bindings,
        }
    }
}

} // verus!
