//! What the engine and its handlers read of a platform event.

use vstd::prelude::*;

verus! {

/// A window event, reduced to what the library decides on.
///
/// The host keeps the platform's own event and hands it to the pipeline and to
/// the input accumulator where an [`Effect`](crate::engine::Effect) says so.
#[derive(Debug, Clone, Copy, PartialEq, Eq, Structural)]
pub enum WindowEvent {
    /// The user asked to close the window.
    CloseRequested,
    /// The window has to be drawn again: one frame.
    RedrawRequested,
    /// The window gained (`true`) or lost (`false`) the focus.
    Focused(bool),
    /// The window has a new size, in physical pixels.
    Resized { width: u32, height: u32 },
    /// Any other event.
    Other,
}

} // verus!
