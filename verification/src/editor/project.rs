//! Project Management
//!
//! Window settings of a project.

use vstd::prelude::*;

verus! {

#[derive(Debug, Clone)]
pub struct WindowSettings {
    pub width: u32,
    pub height: u32,
    pub title: String,
    pub fullscreen: bool,
    pub vsync: bool,
    pub resizable: bool,
}

impl Default for WindowSettings {
    fn default() -> (w: Self)
        ensures
            w.width == 1920,
            w.height == 1080,
            w.title@ == "Phoenix Game"@,
            !w.fullscreen,
            w.vsync,
            w.resizable,
    {
        WindowSettings {
            width: 1920,
            height: 1080,
            title: "Phoenix Game".to_owned(),
            fullscreen: false,
            vsync: true,
            resizable: true,
        }
    }
}

} // verus!
