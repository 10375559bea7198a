//! Editor Application
//!
//! The editor's modes and the play controls that move between them.

use vstd::prelude::*;

verus! {

/// Editor mode
#[derive(Debug, Clone, Copy, PartialEq, Eq, Structural)]
pub enum EditorMode {
    Edit,
    Play,
    Pause,
}

impl EditorMode {
    /// The mode after the play/stop button: editing starts play, playing or
    /// pausing stops back to editing. Also the message the console logs.
    pub fn on_play_button(self) -> (r: (EditorMode, &'static str))
        ensures
            self == EditorMode::Edit ==> r.0 == EditorMode::Play && r.1@ == "Entering play mode"@,
            self != EditorMode::Edit ==> r.0 == EditorMode::Edit && r.1@ == "Stopped"@,
    {
        match self {
            EditorMode::Edit => (EditorMode::Play, "Entering play mode"),
            EditorMode::Play | EditorMode::Pause => (EditorMode::Edit, "Stopped"),
        }
    }

    /// The label of the play/stop button.
    pub fn play_button_label(self) -> (label: &'static str)
        ensures
            self == EditorMode::Play ==> label@ == "⏹ Stop"@,
            self != EditorMode::Play ==> label@ == "▶ Play"@,
    {
        if self == EditorMode::Play {
            "⏹ Stop"
        } else {
            "▶ Play"
        }
    }

    /// The mode after the pause button, which is shown while playing.
    pub fn on_pause_button(self) -> (r: EditorMode)
        ensures
            r == (if self == EditorMode::Play {
                EditorMode::Pause
            } else {
                self
            }),
    {
        if self == EditorMode::Play {
            EditorMode::Pause
        } else {
            self
        }
    }

    /// The mode after the resume button, which is shown while paused.
    pub fn on_resume_button(self) -> (r: EditorMode)
        ensures
            r == (if self == EditorMode::Pause {
                EditorMode::Play
            } else {
                self
            }),
    {
        if self == EditorMode::Pause {
            EditorMode::Play
        } else {
            self
        }
    }

    /// Whether the game loop runs (fixed updates and continuous repaint).
    pub fn runs_game(self) -> (b: bool)
        ensures
            b == (self == EditorMode::Play),
    {
        self == EditorMode::Play
    }
}

/// A console line.
#[derive(Debug, Clone)]
pub struct ConsoleMessage {
    pub level: LogLevel,
    pub message: String,
    pub timestamp: String,
}

#[derive(Debug, Clone, Copy, PartialEq, Eq, Structural)]
pub enum LogLevel {
    Info,
    Warning,
    Error,
}

} // verus!
