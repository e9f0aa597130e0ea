//! What the host event source delivers to the coordinator.

use vstd::prelude::*;
use crate::viewport::ViewportSize;

verus! {

/// One lifecycle event of the host window.
#[derive(Clone, Copy, Debug, PartialEq, Eq, Structural)]
pub enum Event {
    /// The user asked for the window to be closed.
    CloseRequested,
    /// The drawable area now has the given size.
    Resized(ViewportSize),
    /// The host wants one frame rendered and presented.
    RedrawRequested,
    /// The host has no more events queued and is about to wait.
    AboutToWait,
    /// Any other event; the coordinator does not react to it.
    Other,
}

} // verus!
