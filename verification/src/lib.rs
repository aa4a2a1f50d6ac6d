//! A mode-aware key binding dispatcher for a tiling window manager.
//!
//! The dispatcher keeps one binding table per [`Mode`], a fallback table for
//! modes without a table of their own, and a reserved unlock chord that
//! switches the keyboard lock in every mode. It decides, for each input event,
//! which action is to run and which chords are to be captured; running the
//! action and talking to the display server is left to the caller.

pub mod action;
pub mod binder;
pub mod bindings;
pub mod chord;
pub mod config;
pub mod laws;
pub mod mode;
pub mod state;

pub use action::{Action, Arrangement, LayoutMessage};
pub use binder::{Event, KeyBinder, Outcome};
pub use bindings::{Binding, Bindings, ResolutionError, Resolved};
pub use chord::Chord;
pub use mode::Mode;
pub use state::KeyBinderState;
