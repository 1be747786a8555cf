//! Small boolean helpers.

use vstd::prelude::*;

verus! {

/// An in-place toggle.
pub trait Flip {
    /// Toggle the value and return the new one.
    fn flip(&mut self) -> bool;
}

impl Flip for bool {
    fn flip(&mut self) -> (r: bool)
        ensures
            *final(self) == !*old(self),
            r == *final(self),
    {
        *self = !*self;
        *self
    }
}

} // verus!
