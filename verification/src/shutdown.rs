//! The stop flag of a recording.
//!
//! The recording loop, the audio capture and whatever waits for the user
//! each hold a handle to one flag. Any of them may ask for a stop; all of
//! them see it. The flag starts unset and can only be set: a handle offers
//! nothing that clears it.
//!
//! The flag is read and written with atomic loads and stores, without a
//! lock. What a load returns depends on what the other holders have done, so
//! nothing is promised of a handle's first sight of a stop. What is promised
//! is that a handle never goes back on it: once it has asked for a stop or
//! seen one, it reports a stop ever after.

use vstd::prelude::*;
use std::sync::atomic::AtomicBool;
use std::sync::atomic::Ordering;
use std::sync::Arc;

verus! {

/// A handle to the stop flag of one recording.
pub struct ShutdownSignal {
    flag: Arc<AtomicBool>,
    seen: bool,
}

impl ShutdownSignal {
    /// Whether this handle has asked for a stop or seen one.
    pub closed spec fn observed(&self) -> bool {
        self.seen
    }

    /// A new flag, not set, and the first handle to it.
    pub fn new() -> (signal: ShutdownSignal)
        ensures
            !signal.observed(),
    {
        ShutdownSignal { flag: Arc::new(AtomicBool::new(false)), seen: false }
    }

    /// Another handle to the same flag, to give to another thread. It knows
    /// of a stop what this one knows.
    pub fn share(&self) -> (signal: ShutdownSignal)
        ensures
            signal.observed() == self.observed(),
    {
        ShutdownSignal { flag: Arc::clone(&self.flag), seen: self.seen }
    }

    /// Asks for a stop. Every handle of the flag can see it from now on.
    pub fn request(&mut self)
        ensures
            final(self).observed(),
    {
        self.flag.store(true, Ordering::Release);
        self.seen = true;
    }

    /// Whether a stop has been asked for, through this handle or another.
    /// A handle that has answered yes answers yes from then on.
    pub fn is_requested(&mut self) -> (stop: bool)
        ensures
            stop == final(self).observed(),
            old(self).observed() ==> stop,
    {
        if !self.seen {
            self.seen = self.flag.load(Ordering::Acquire);
        }
        self.seen
    }
}

} // verus!
