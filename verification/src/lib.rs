//! Phoenix Engine: the verified core of a 2D action-adventure game engine.

pub mod strmap;
pub mod text;
pub mod engine;
pub mod game;
pub mod editor;
