//! The dispatcher's modes.

use vstd::prelude::*;

verus! {

/// Selects which binding table is active.
#[derive(Clone, Copy, PartialEq, Eq, Structural, Hash, Debug)]
pub enum Mode {
    Normal,
    Locked,
    Resize,
    Move,
    Focus,
}

impl Mode {
    /// The mode's position in the declaration order, the key under which its
    /// binding table is stored.
    pub open spec fn spec_index(self) -> u8 {
        match self {
            Mode::Normal => 0,
            Mode::Locked => 1,
            Mode::Resize => 2,
            Mode::Move => 3,
            Mode::Focus => 4,
        }
    }

    /// The mode that the keyboard lock switch leads to: `Locked` gives way to
    /// `Normal`, every other mode to `Locked`.
    pub open spec fn spec_toggled(self) -> Mode {
        if self == Mode::Locked {
            Mode::Normal
        } else {
            Mode::Locked
        }
    }

    /// Whether this is one of the two modes that the lock switch moves
    /// between.
    pub open spec fn is_switch_mode(self) -> bool {
        self == Mode::Normal || self == Mode::Locked
    }

    #[verifier::when_used_as_spec(spec_index)]
    pub fn index(self) -> (r: u8)
        ensures
            r == self.spec_index(),
            r < 5,
    {
        match self {
            Mode::Normal => 0,
            Mode::Locked => 1,
            Mode::Resize => 2,
            Mode::Move => 3,
            Mode::Focus => 4,
        }
    }

    #[verifier::when_used_as_spec(spec_toggled)]
    pub fn toggled(self) -> (r: Mode)
        ensures
            r == self.spec_toggled(),
    {
        match self {
            Mode::Locked => Mode::Normal,
            _ => Mode::Locked,
        }
    }
}

impl Default for Mode {
    fn default() -> (r: Mode)
        ensures
            r == Mode::Normal,
    {
        Mode::Normal
    }
}

/// Distinct modes are stored under distinct keys.
pub proof fn lemma_index_injective(a: Mode, b: Mode)
    requires
        a.spec_index() == b.spec_index(),
    ensures
        a == b,
{
}

} // verus!
