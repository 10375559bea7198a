//! Core Engine Module
//!
//! The engine's bookkeeping: entities, resources, input bindings, audio clips
//! and animation frames.

pub mod audio;
pub mod ecs;
pub mod input;
pub mod renderer;
pub mod resources;
