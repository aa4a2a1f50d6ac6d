//! Key chords: a physical key code together with a modifier mask.

use vstd::prelude::*;

verus! {

/// A physical key code and the modifiers held with it. Two chords are the same
/// binding target exactly when both fields agree.
#[derive(Clone, Copy, PartialEq, Eq, Structural, Hash, Debug)]
pub struct Chord {
    pub code: u8,
    pub mask: u16,
}

impl Chord {
    pub fn new(code: u8, mask: u16) -> (r: Chord)
        ensures
            r == (Chord { code, mask }),
    {
        Chord { code, mask }
    }
}

} // verus!
