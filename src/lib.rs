//! A keyboard-driven todo board: two lists (active and completed) with a
//! selection each, a state machine that turns key presses into list edits,
//! and a checklist codec that keeps the lists in a section of a Markdown
//! document.
use vstd::prelude::*;

pub mod state;
pub mod text;
pub mod list;
pub mod codec;
pub mod document;
pub mod app;
pub mod laws;

verus! {

} // verus!
