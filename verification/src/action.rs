//! What a key binding does.

use vstd::prelude::*;

verus! {

/// A change to the arrangement of the managed windows.
#[derive(Clone, Copy, PartialEq, Eq, Structural, Hash, Debug)]
pub enum Arrangement {
    FocusDown,
    FocusUp,
    SwapDown,
    SwapUp,
    KillFocused,
    NextLayout,
    PreviousLayout,
}

/// A message for the layout that is active on the focused workspace.
#[derive(Clone, Copy, PartialEq, Eq, Structural, Hash, Debug)]
pub enum LayoutMessage {
    /// Change the number of windows in the main area by this amount.
    IncMain(i8),
    ExpandMain,
    ShrinkMain,
}

/// The behaviour bound to a chord. The dispatcher carries out `ToggleMode`
/// itself, on its own state; every other action is handed to the caller, who
/// runs it against the window manager.
#[derive(Clone, Copy, PartialEq, Eq, Hash, Debug)]
pub enum Action {
    /// Start the named program and do not wait for it.
    Spawn(&'static str),
    /// Rearrange the managed windows.
    Modify(Arrangement),
    /// Send a message to the active layout.
    Layout(LayoutMessage),
    /// Switch the keyboard lock.
    ToggleMode,
    /// Leave the window manager's event loop.
    Exit,
    /// A placeholder binding: succeeds and changes nothing.
    NoOp,
}

} // verus!
