//! The screens: the state of each and how it answers key presses.

use vstd::prelude::*;
use crate::tui::app::Screen;

pub mod welcome;
pub mod help;
pub mod progress;
pub mod summary;
pub mod settings;
pub mod playlist;
pub mod download;

verus! {

/// What a screen asks for after a key press.
#[derive(Debug, Clone, Copy, PartialEq, Eq, Structural)]
pub enum ScreenResult {
    /// Stay on the screen.
    Continue,
    /// Go to another screen.
    NavigateTo(Screen),
    /// Quit the application.
    Quit,
}

} // verus!
