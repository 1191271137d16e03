//! Small helpers of the pipeline.

pub mod color;

pub use color::Rgb8;
