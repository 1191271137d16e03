//! Lifecycle core of a small real-time rendering engine.
//!
//! The engine is a state machine. The platform event loop feeds it window and
//! device events, an outside controller feeds it signals, and every step
//! answers with the ordered list of effects that the host has to perform.

pub mod engine;
pub mod systems;
