//! Whether automatic polling is switched on.

use vstd::prelude::*;

verus! {

/// A switch for automatic polling; off when made.
#[derive(Debug)]
pub struct PollingState {
    enabled: bool,
}

impl PollingState {
    pub closed spec fn enabled(self) -> bool {
        self.enabled
    }

    pub fn new() -> (s: PollingState)
        ensures
            !s.enabled(),
    {
        PollingState { enabled: false }
    }

    pub fn is_enabled(&self) -> (r: bool)
        ensures
            r == self.enabled(),
    {
        self.enabled
    }

    pub fn start(&mut self)
        ensures
            final(self).enabled(),
    {
        self.enabled = true;
    }

    pub fn stop(&mut self)
        ensures
            !final(self).enabled(),
    {
        self.enabled = false;
    }
}

} // verus!
