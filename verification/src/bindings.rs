//! Binding tables: which action each chord is bound to.

use crate::action::Action;
use crate::chord::Chord;
use std::collections::HashMap;
use vstd::prelude::*;
use vstd::std_specs::iter::IteratorSpec;

verus! {

broadcast use vstd::std_specs::hash::group_hash_axioms;

/// The number of key codes: a chord is stored under its mask times this number
/// plus its code.
const CODES: u32 = 256;

/// One more than the largest key that any chord is stored under.
const KEY_LIMIT: u32 = 0x100_0000;

/// The integer under which a table stores `chord`.
spec fn key_of(chord: Chord) -> u32 {
    (chord.mask * CODES + chord.code) as u32
}

/// The chord that is stored under `key`.
spec fn chord_at(key: u32) -> Chord {
    Chord { code: (key % CODES) as u8, mask: (key / CODES) as u16 }
}

/// A chord is recovered from its key, so distinct chords have distinct keys.
proof fn lemma_key_round_trip(chord: Chord)
    ensures
        key_of(chord) < KEY_LIMIT,
        chord_at(key_of(chord)) == chord,
{
}

fn chord_key(chord: Chord) -> (r: u32)
    ensures
        r == key_of(chord),
        r < KEY_LIMIT,
{
    let mask: u32 = chord.mask as u32;
    let code: u32 = chord.code as u32;
    mask * CODES + code
}

fn key_chord(key: u32) -> (r: Chord)
    requires
        key < KEY_LIMIT,
    ensures
        r == chord_at(key),
        key_of(r) == key,
{
    Chord { code: (key % CODES) as u8, mask: (key / CODES) as u16 }
}

/// A configured binding: the chord, as the user writes it, and what it does.
#[derive(Clone, Copy, PartialEq, Eq, Debug)]
pub struct Binding {
    pub descriptor: &'static str,
    pub action: Action,
}

impl Binding {
    /// This binding together with what the keyboard layout made of its
    /// descriptor.
    pub fn resolved(self, chord: Option<Chord>) -> (r: Resolved)
        ensures
            r == (Resolved { descriptor: self.descriptor, chord, action: self.action }),
    {
        Resolved { descriptor: self.descriptor, chord, action: self.action }
    }
}

/// A configured binding after its descriptor was looked up in the keyboard
/// layout. `chord` is `None` when the layout does not know the descriptor.
#[derive(Clone, Copy, PartialEq, Eq, Debug)]
pub struct Resolved {
    pub descriptor: &'static str,
    pub chord: Option<Chord>,
    pub action: Action,
}

/// A descriptor that the keyboard layout does not know.
#[derive(Clone, Copy, PartialEq, Eq, Debug)]
pub struct ResolutionError {
    pub descriptor: &'static str,
}

/// Every binding of `items` has a chord.
pub open spec fn all_resolved(items: Seq<Resolved>) -> bool {
    forall|i: int| 0 <= i < items.len() ==> (#[trigger] items[i]).chord is Some
}

/// `i` is the position of the first binding of `items` without a chord.
pub open spec fn is_first_unresolved(items: Seq<Resolved>, i: int) -> bool {
    &&& 0 <= i < items.len()
    &&& items[i].chord is None
    &&& all_resolved(items.take(i))
}

/// `descriptor` is the descriptor of the first binding of `items` without a
/// chord.
pub open spec fn names_first_unresolved(items: Seq<Resolved>, descriptor: &'static str) -> bool {
    exists|i: int| is_first_unresolved(items, i) && (#[trigger] items[i]).descriptor == descriptor
}

/// The table that `items` describe: each binding with a chord binds that
/// chord, and where a chord occurs more than once the last occurrence stands.
pub open spec fn table_of(items: Seq<Resolved>) -> Map<Chord, Action>
    decreases items.len(),
{
    if items.len() == 0 {
        Map::empty()
    } else {
        let rest = table_of(items.drop_last());
        match items.last().chord {
            Some(chord) => rest.insert(chord, items.last().action),
            None => rest,
        }
    }
}

/// The chord map that a map over table keys stands for.
spec fn by_chord(keyed: Map<u32, Action>) -> Map<Chord, Action> {
    Map::new(|c: Chord| keyed.contains_key(key_of(c)), |c: Chord| keyed[key_of(c)])
}

/// Storing under a chord's key binds that chord and no other.
proof fn lemma_by_chord_insert(keyed: Map<u32, Action>, chord: Chord, action: Action)
    ensures
        by_chord(keyed.insert(key_of(chord), action)) == by_chord(keyed).insert(chord, action),
{
    assert forall|c: Chord| key_of(c) == key_of(chord) implies c == chord by {
        lemma_key_round_trip(c);
        lemma_key_round_trip(chord);
    }
    assert(by_chord(keyed.insert(key_of(chord), action)) =~= by_chord(keyed).insert(
        chord,
        action,
    ));
}

/// A mapping from chords to actions, fixed once it is built. Each chord is
/// bound at most once; the order in which bindings were given plays no part
/// but to settle which of two bindings of one chord stands.
pub struct Bindings {
    map: HashMap<u32, Action>,
}

impl View for Bindings {
    type V = Map<Chord, Action>;

    closed spec fn view(&self) -> Map<Chord, Action> {
        by_chord(self.map@)
    }
}

impl Bindings {
    /// Every stored key is the key of a chord.
    #[verifier::type_invariant]
    spec fn keys_in_range(&self) -> bool {
        forall|k: u32| self.map@.contains_key(k) ==> k < KEY_LIMIT
    }

    /// Builds the table that `items` describe. Succeeds exactly when every
    /// binding has a chord; otherwise fails on the first one that has none,
    /// and names its descriptor.
    pub fn from_resolved(items: &Vec<Resolved>) -> (r: Result<Bindings, ResolutionError>)
        ensures
            r is Ok <==> all_resolved(items@),
            match r {
                Ok(table) => all_resolved(items@) && table@ == table_of(items@),
                Err(e) => names_first_unresolved(items@, e.descriptor),
            },
    {
        let mut map: HashMap<u32, Action> = HashMap::new();
        let mut i: usize = 0;
        assert(by_chord(map@) =~= table_of(items@.take(0)));
        while i < items.len()
            invariant
                i <= items.len(),
                all_resolved(items@.take(i as int)),
                by_chord(map@) == table_of(items@.take(i as int)),
                forall|k: u32| map@.contains_key(k) ==> k < KEY_LIMIT,
            decreases items.len() - i,
        {
            let item = items[i];
            match item.chord {
                Some(chord) => {
                    let key = chord_key(chord);
                    proof {
                        lemma_by_chord_insert(map@, chord, item.action);
                        assert(items@.take(i + 1).drop_last() =~= items@.take(i as int));
                    }
                    map.insert(key, item.action);
                },
                None => {
                    assert(is_first_unresolved(items@, i as int));
                    return Err(ResolutionError { descriptor: item.descriptor });
                },
            }
            i += 1;
        }
        assert(items@.take(i as int) =~= items@);
        Ok(Bindings { map })
    }

    /// The bound chords, each once, in no particular order.
    pub fn chords(&self) -> (r: Vec<Chord>)
        ensures
            r@.no_duplicates(),
            r@.to_set() == self@.dom(),
    {
        proof {
            use_type_invariant(self);
        }
        let ghost keys: Seq<u32> = self.map.keys().remaining().unref();
        let mut out: Vec<Chord> = Vec::new();
        for key in it: self.map.keys()
            invariant
                forall|k: u32| self.map@.contains_key(k) ==> k < KEY_LIMIT,
                it.seq().unref() == keys,
                keys.to_set() == self.map@.dom(),
                out@.len() == it.index(),
                forall|j: int| 0 <= j < out@.len() ==> key_of(#[trigger] out@[j]) == keys[j],
        {
            assert(keys[it.index()] == *key);
            assert(keys.to_set().contains(*key));
            out.push(key_chord(*key));
        }
        proof {
            assert(out@.len() == keys.len());
            assert(keys.no_duplicates());
            assert forall|c: Chord| self@.dom().contains(c) implies out@.to_set().contains(c) by {
                assert(keys.to_set().contains(key_of(c)));
                let j = choose|j: int| 0 <= j < keys.len() && keys[j] == key_of(c);
                lemma_key_round_trip(out@[j]);
                lemma_key_round_trip(c);
            }
            assert forall|c: Chord| out@.to_set().contains(c) implies self@.dom().contains(c) by {
                let j = choose|j: int| 0 <= j < out@.len() && out@[j] == c;
                assert(keys[j] == key_of(c));
                assert(keys.to_set().contains(key_of(c)));
            }
            assert(out@.to_set() =~= self@.dom());
        }
        out
    }

    /// The action that `chord` is bound to, if it is bound.
    pub fn get(&self, chord: Chord) -> (r: Option<Action>)
        ensures
            r == if self@.contains_key(chord) {
                Some(self@[chord])
            } else {
                None
            },
    {
        let key = chord_key(chord);
        match self.map.get(&key) {
            Some(action) => Some(*action),
            None => None,
        }
    }
}

} // verus!
