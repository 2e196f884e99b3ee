//! A minimal one-shot signal: it carries the food-eaten occurrence from
//! collision detection to the growth and respawn reactions of the same tick,
//! exactly once.

use vstd::prelude::*;

verus! {

/// At most one food-eaten occurrence is ever in flight.
pub struct FoodEatenSignal {
    pub pending: bool,
}

impl FoodEatenSignal {
    /// A fresh signal with no occurrence in flight.
    pub fn new() -> (r: FoodEatenSignal)
        ensures
            !r.pending,
    {
        FoodEatenSignal { pending: false }
    }

    /// Publishes the occurrence; emitting twice without a consume in
    /// between would duplicate delivery and is required away.
    pub fn emit(&mut self)
        requires
            !old(self).pending,
        ensures
            final(self).pending,
    {
        self.pending = true;
    }

    /// Takes the occurrence, if one is in flight, and clears it, so the
    /// same occurrence can never be delivered a second time.
    pub fn consume(&mut self) -> (fired: bool)
        ensures
            fired == old(self).pending,
            !final(self).pending,
    {
        let fired = self.pending;
        self.pending = false;
        fired
    }
}

} // verus!
