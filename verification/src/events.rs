//! The kinds of event that a control can raise.

use vstd::prelude::*;

verus! {

/// An event kind.
#[derive(Clone, Copy, Debug, PartialEq, Eq, Structural)]
pub enum Event {
    Destroyed,
    Moved,
    Resized,
    Click,
    DoubleClick,
    /// Stands for every event of the control.
    Any,
}

} // verus!
