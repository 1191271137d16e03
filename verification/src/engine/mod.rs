//! The engine: its signals, its states, and the steps between them.

pub mod effect;
pub mod event;
pub mod host;
pub mod laws;
pub mod lifecycle;
pub mod model;
pub mod runner;
pub mod signal;

pub use effect::Diagnostic;
pub use effect::Effect;
pub use event::WindowEvent;
pub use lifecycle::Engine;
pub use model::EngineModel;
pub use model::EngineState;
pub use runner::Runner;
pub use signal::Comparison;
pub use signal::InSignal;
pub use signal::QueueBehavior;
