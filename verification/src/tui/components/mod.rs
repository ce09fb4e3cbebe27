//! Reusable interface components: their state and the rules by which they
//! change; drawing them is left to the terminal front end.

pub mod box_chars;
pub mod style;
pub mod spinner;
pub mod progress;
pub mod list;
pub mod modal;
pub mod keyboard;
pub mod input;
