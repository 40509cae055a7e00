//! The capabilities that the dialogue engine may invoke during a turn. Each
//! has a name, a description, parameters, and a call that gives a text or
//! fails.

pub mod time;
pub mod timeout;

use vstd::prelude::*;

verus! {

/// Why a tool call failed.
#[derive(Clone, Copy, Debug, PartialEq, Eq, Structural)]
pub enum ToolError {
    /// The local time could not be written out.
    ClockUnreadable,
    /// The end of the requested suppression lies beyond the last
    /// representable time.
    DeadlineOutOfRange,
}

} // verus!
