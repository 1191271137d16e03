//! What the handlers read of the input accumulated for a frame.

use vstd::prelude::*;

verus! {

/// A size in physical pixels.
#[derive(Debug, Clone, Copy, PartialEq, Eq, Structural)]
pub struct PhysicalSize {
    pub width: u32,
    pub height: u32,
}

/// The accumulated input of one frame, reduced to what the handlers decide on.
#[derive(Debug, Clone, Copy, PartialEq, Eq, Structural)]
pub struct InputSnapshot {
    /// The left mouse button went down in this frame.
    pub mouse_left_pressed: bool,
    /// The cursor is over the window.
    pub cursor_present: bool,
    /// The escape key went down in this frame.
    pub escape_pressed: bool,
    /// The tab key went down in this frame.
    pub tab_pressed: bool,
    /// The new size of the window, where it was resized in this frame.
    pub window_resized: Option<PhysicalSize>,
}

} // verus!
