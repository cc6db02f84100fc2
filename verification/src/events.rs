//! The events the blocking input thread hands the base UI.
//!
//! The polling thread itself, and the channel it feeds, live outside this
//! crate; the UI only ever sees these plain values.

use vstd::prelude::*;

verus! {

/// One key event, reduced to what the UI reads: the character and whether
/// this is the press (rather than release or repeat).
#[derive(Clone, Copy, Debug, PartialEq, Eq, Structural)]
pub struct KeyInput {
    pub code: char,
    pub pressed: bool,
}

/// One event delivered to the base UI.
#[derive(Clone, Copy, Debug, PartialEq, Eq, Structural)]
pub enum EventEnum {
    Input(KeyInput),
}

} // verus!
