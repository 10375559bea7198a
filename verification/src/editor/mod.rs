//! Editor
//!
//! The editor's state: its mode, console messages, panel state and project
//! and scene settings.

pub mod app;
pub mod panels;
pub mod project;
pub mod scene;
