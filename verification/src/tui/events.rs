//! How long the interface waits for an event before it redraws.

use vstd::prelude::*;

verus! {

/// The event poll's timeout; polling itself is done by the front end.
pub struct EventHandler {
    timeout_ms: u64,
}

impl EventHandler {
    /// The timeout in milliseconds.
    pub closed spec fn timeout(&self) -> u64 {
        self.timeout_ms
    }

    /// A handler that waits `timeout_ms` milliseconds for each event.
    pub fn new(timeout_ms: u64) -> (r: Self)
        ensures
            r.timeout() == timeout_ms,
    {
        EventHandler { timeout_ms }
    }

    /// The timeout in milliseconds.
    pub fn timeout_ms(&self) -> (r: u64)
        ensures
            r == self.timeout(),
    {
        self.timeout_ms
    }
}

impl Default for EventHandler {
    fn default() -> (r: Self)
        ensures
            r.timeout() == 100,
    {
        Self::new(100)
    }
}

} // verus!
