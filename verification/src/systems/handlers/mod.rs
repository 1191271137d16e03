//! The handlers that the pipeline is made of.

pub mod cursor_lock;
pub mod display;
pub mod pyramid;

pub use cursor_lock::CursorLock;
pub use cursor_lock::CursorLockBuilder;
pub use display::Display;
pub use display::DisplayBuilder;
pub use pyramid::Pyramid;
pub use pyramid::PyramidModel;
