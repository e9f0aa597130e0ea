//! The reusable kernel of a small real-time rendering demo: a frame-driven
//! render-loop coordinator, the layout of the camera matrices, and the
//! preparation of texture data for upload, with the test that decides which
//! JPEG streams reach the decoder.
//!
//! The coordinator is a state machine from host events to the commands that
//! the host and the GPU surface carry out; it performs no I/O itself. The
//! host owns the window, the GPU resources and all floating-point values: it
//! computes the terms of each matrix and sets them where the tables say.

use vstd::prelude::*;

pub mod command;
pub mod coordinator;
pub mod event;
pub mod history;
pub mod jpeg;
pub mod texture;
pub mod transform;
pub mod viewport;

verus! {

/// Does nothing and returns. Nothing in the library calls it.
pub fn spinny_basil() {
}

} // verus!
