//! The shutdown flag: a process-wide stop request, set at most once by an
//! interrupt handler and polled by the listener loop. Modelled here as an
//! explicit value injected into the loop's context, so that a harness can
//! simulate a shutdown without a real signal.

use vstd::prelude::*;

verus! {

/// A cooperative stop request. It starts out not requested; once requested it
/// stays requested: no operation ever clears it.
pub struct ShutdownFlag {
    requested: bool,
}

impl ShutdownFlag {
    /// Whether a stop has been requested.
    pub closed spec fn spec_requested(self) -> bool {
        self.requested
    }

    /// A fresh flag: no stop requested yet.
    pub fn new() -> (flag: ShutdownFlag)
        ensures
            !flag.spec_requested(),
    {
        ShutdownFlag { requested: false }
    }

    /// Record a stop request. Idempotent: whatever the flag held before, it
    /// holds a request afterwards, so a second interrupt cannot revert it.
    pub fn request(&mut self)
        ensures
            final(self).spec_requested(),
    {
        self.requested = true;
    }

    /// Poll the flag, as the listener loop does once per frame.
    pub fn is_requested(&self) -> (r: bool)
        ensures
            r == self.spec_requested(),
    {
        self.requested
    }
}

} // verus!
