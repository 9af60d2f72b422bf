//! Core rules of a small layered 2D scene: the scene holds static background
//! sprites, a heads-up display, and a handful of cloud sprites that drift to
//! the right and wrap around once they leave the visible area.
//!
//! Positions are held in milli-units (thousandths of a world unit), so a
//! speed in milli-units per millisecond equals a speed in world units per
//! second.
use vstd::prelude::*;

pub mod color;
pub mod ui;
pub mod window;
pub mod world;

verus! {

/// Top-level state of the application.
#[derive(Debug, Clone, Copy, PartialEq, Eq, Hash, Structural)]
pub enum AppState {
    MainMenu,
    InGame,
    Paused,
}

impl Default for AppState {
    /// The application starts in game.
    fn default() -> (s: Self)
        ensures
            s == AppState::InGame,
    {
        AppState::InGame
    }
}

} // verus!
