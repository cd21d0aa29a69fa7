//! Decisions of a recursive directory clone, as a state machine.
//!
//! A run copies every regular file found anywhere under a source directory
//! into one destination directory, under the file's own name. The machine
//! issues one filesystem [`Action`] at a time and is told how it went by an
//! [`Event`]; whoever drives it performs the actions.

pub mod traversal;
pub mod laws;

pub use traversal::{Action, CloneError, Entry, EntryKind, Event, Model, Phase, TreeCloner};
