//! The cancellation flag: set once from outside, looked at by the acquisition
//! loop between two cycles.

use vstd::prelude::*;

verus! {

/// A flag that can be set and never cleared.
#[derive(Debug)]
pub struct CancellationFlag {
    set: bool,
}

impl View for CancellationFlag {
    type V = bool;

    closed spec fn view(&self) -> bool {
        self.set
    }
}

impl CancellationFlag {
    /// A flag that is not set.
    pub fn new() -> (flag: CancellationFlag)
        ensures
            !flag@,
    {
        CancellationFlag { set: false }
    }

    /// Sets the flag. Setting a flag that is set already changes nothing.
    pub fn trigger(&mut self)
        ensures
            final(self)@,
            old(self)@ ==> *final(self) == *old(self),
    {
        self.set = true;
    }

    /// Whether the flag is set.
    pub fn is_set(&self) -> (set: bool)
        ensures
            set == self@,
    {
        self.set
    }
}

} // verus!
