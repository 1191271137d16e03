//! The parts of the demonstration pipeline that decide without drawing.

pub mod args;
pub mod handlers;
pub mod input;
pub mod pipeline;
pub mod signal;
pub mod utils;

pub use args::FpsLimit;
pub use input::InputSnapshot;
pub use input::PhysicalSize;
pub use pipeline::Pipeline;
pub use signal::Signal;
pub use signal::SupersedesResize;
pub use utils::Rgb8;
