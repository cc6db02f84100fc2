//! The events the terminal event loop hands the pages.
//!
//! The loop that reads the terminal, ticks and schedules renders runs
//! outside this crate; pages only ever see these plain events. A key
//! event carries the pressed character — the only part of the input the
//! pages read.

use vstd::prelude::*;

verus! {

/// One event delivered to the application's pages.
#[derive(Clone, Copy, Debug, PartialEq, Eq, Structural)]
pub enum AppEvent {
    /// Periodic housekeeping tick.
    Tick,
    /// The event source failed.
    Error,
    /// Time to redraw.
    Render,
    /// A character key was pressed.
    Key(char),
    /// Mouse input (pages ignore its details).
    Mouse,
}

} // verus!
