//! One-shot delivery: a value handed out at most once.
use vstd::prelude::*;

verus! {

/// Holds a value (a callback, an owned buffer) until it is taken; after the
/// first take it is spent and every later take yields nothing.
pub struct OneShot<T> {
    slot: Option<T>,
}

impl<T> OneShot<T> {
    /// The value still waiting to be taken, if any.
    pub closed spec fn pending(&self) -> Option<T> {
        self.slot
    }

    /// A one-shot holding `value`.
    pub fn new(value: T) -> (s: Self)
        ensures
            s.pending() == Some(value),
    {
        OneShot { slot: Some(value) }
    }

    /// Take the value: the first take yields it, and the one-shot is spent
    /// afterwards.
    pub fn take(&mut self) -> (r: Option<T>)
        ensures
            r == old(self).pending(),
            final(self).pending() is None,
    {
        self.slot.take()
    }

    /// Whether the value has already been taken.
    pub fn is_spent(&self) -> (b: bool)
        ensures
            b == self.pending() is None,
    {
        self.slot.is_none()
    }
}

} // verus!
