//! The configured key bindings, as the user writes them.
//!
//! A descriptor names the modifiers, each followed by a hyphen, and then the
//! key: `A` is Alt, `S` is Shift. Which chord a descriptor stands for depends
//! on the keyboard layout, so the caller looks each one up before the state is
//! built.

use crate::action::{Action, Arrangement, LayoutMessage};
use crate::bindings::Binding;
use crate::mode::Mode;
use crate::state::KeyBinderState;
use vstd::prelude::*;

verus! {

/// The binding of the reserved chord that switches the keyboard lock.
pub open spec fn configured_unlock() -> Binding {
    Binding { descriptor: "A-g", action: Action::ToggleMode }
}

/// The bindings that are live while the keyboard is locked: the lock switch
/// and nothing else.
pub open spec fn configured_locked() -> Seq<Binding> {
    seq![Binding { descriptor: "A-g", action: Action::ToggleMode }]
}

/// The bindings of `Normal` mode.
pub open spec fn configured_normal() -> Seq<Binding> {
    seq![
        Binding { descriptor: "A-g", action: Action::ToggleMode },
        Binding { descriptor: "A-h", action: Action::NoOp },
        Binding { descriptor: "A-Return", action: Action::Spawn("alacritty") },
        Binding { descriptor: "A-Escape", action: Action::Exit },
    ]
}

/// The bindings of every mode that has no table of its own.
pub open spec fn configured_fallback() -> Seq<Binding> {
    seq![
        Binding { descriptor: "A-j", action: Action::Modify(Arrangement::FocusDown) },
        Binding { descriptor: "A-k", action: Action::Modify(Arrangement::FocusUp) },
        Binding { descriptor: "A-S-j", action: Action::Modify(Arrangement::SwapDown) },
        Binding { descriptor: "A-S-k", action: Action::Modify(Arrangement::SwapUp) },
        Binding { descriptor: "A-q", action: Action::Modify(Arrangement::KillFocused) },
        Binding { descriptor: "A-bracketright", action: Action::Modify(Arrangement::NextLayout) },
        Binding {
            descriptor: "A-bracketleft",
            action: Action::Modify(Arrangement::PreviousLayout),
        },
        Binding { descriptor: "A-S-Up", action: Action::Layout(LayoutMessage::IncMain(1i8)) },
        Binding { descriptor: "A-S-Down", action: Action::Layout(LayoutMessage::IncMain(-1i8)) },
        Binding { descriptor: "A-S-Right", action: Action::Layout(LayoutMessage::ExpandMain) },
        Binding { descriptor: "A-S-Left", action: Action::Layout(LayoutMessage::ShrinkMain) },
        Binding { descriptor: "A-semicolon", action: Action::Spawn("dmenu_run") },
        Binding { descriptor: "A-Return", action: Action::Spawn("alacritty") },
        Binding { descriptor: "A-Escape", action: Action::Exit },
    ]
}

impl KeyBinderState {
    /// The binding of the reserved unlock chord.
    pub fn unlock_binding() -> (r: Binding)
        ensures
            r == configured_unlock(),
    {
        Binding { descriptor: "A-g", action: Action::ToggleMode }
    }

    /// The bindings of `Locked` mode.
    pub fn locked_bindings() -> (r: Vec<Binding>)
        ensures
            r@ == configured_locked(),
    {
        vec![Binding { descriptor: "A-g", action: Action::ToggleMode }]
    }

    /// The bindings of `Normal` mode.
    pub fn normal_bindings() -> (r: Vec<Binding>)
        ensures
            r@ == configured_normal(),
    {
        vec![
            Binding { descriptor: "A-g", action: Action::ToggleMode },
            Binding { descriptor: "A-h", action: Action::NoOp },
            Binding { descriptor: "A-Return", action: Action::Spawn("alacritty") },
            Binding { descriptor: "A-Escape", action: Action::Exit },
        ]
    }

    /// The bindings of every mode that has no table of its own.
    pub fn fallback_bindings() -> (r: Vec<Binding>)
        ensures
            r@ == configured_fallback(),
    {
        vec![
            Binding { descriptor: "A-j", action: Action::Modify(Arrangement::FocusDown) },
            Binding { descriptor: "A-k", action: Action::Modify(Arrangement::FocusUp) },
            Binding { descriptor: "A-S-j", action: Action::Modify(Arrangement::SwapDown) },
            Binding { descriptor: "A-S-k", action: Action::Modify(Arrangement::SwapUp) },
            Binding { descriptor: "A-q", action: Action::Modify(Arrangement::KillFocused) },
            Binding {
                descriptor: "A-bracketright",
                action: Action::Modify(Arrangement::NextLayout),
            },
            Binding {
                descriptor: "A-bracketleft",
                action: Action::Modify(Arrangement::PreviousLayout),
            },
            Binding { descriptor: "A-S-Up", action: Action::Layout(LayoutMessage::IncMain(1i8)) },
            Binding { descriptor: "A-S-Down", action: Action::Layout(LayoutMessage::IncMain(-1i8)) },
            Binding { descriptor: "A-S-Right", action: Action::Layout(LayoutMessage::ExpandMain) },
            Binding { descriptor: "A-S-Left", action: Action::Layout(LayoutMessage::ShrinkMain) },
            Binding { descriptor: "A-semicolon", action: Action::Spawn("dmenu_run") },
            Binding { descriptor: "A-Return", action: Action::Spawn("alacritty") },
            Binding { descriptor: "A-Escape", action: Action::Exit },
        ]
    }

    /// The modes that have a table of their own, each with its bindings.
    pub fn mode_bindings() -> (r: Vec<(Mode, Vec<Binding>)>)
        ensures
            r@.len() == 2,
            r@[0].0 == Mode::Locked,
            r@[0].1@ == configured_locked(),
            r@[1].0 == Mode::Normal,
            r@[1].1@ == configured_normal(),
    {
        vec![(Mode::Locked, Self::locked_bindings()), (Mode::Normal, Self::normal_bindings())]
    }
}

} // verus!
