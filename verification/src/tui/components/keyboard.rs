//! Keyboard bindings.

use vstd::prelude::*;
use crate::text::owned;

verus! {

/// The keys bound to the main actions.
pub struct KeyBindings {
    pub quit: String,
    pub help: String,
    pub confirm: String,
}

impl KeyBindings {
    /// The bindings in use: "q" quits, "?" opens help, "Enter" confirms.
    pub fn from_config() -> (r: Self)
        ensures
            r.quit@ == "q"@,
            r.help@ == "?"@,
            r.confirm@ == "Enter"@,
    {
        KeyBindings { quit: owned("q"), help: owned("?"), confirm: owned("Enter") }
    }
}

impl Default for KeyBindings {
    fn default() -> (r: Self)
        ensures
            r.quit@ == "q"@,
            r.help@ == "?"@,
            r.confirm@ == "Enter"@,
    {
        Self::from_config()
    }
}

} // verus!
