use vstd::prelude::*;

use crate::handle::Outcome;

verus! {

/// A write-once slot for the outcome of a unit of work.
pub struct ResultCell {
    slot: Option<Outcome>,
}

impl View for ResultCell {
    type V = Option<Outcome>;

    closed spec fn view(&self) -> Option<Outcome> {
        self.slot
    }
}

impl ResultCell {
    pub fn new() -> (r: ResultCell)
        ensures
            r@ is None,
    {
        ResultCell { slot: None }
    }

    /// Stores `o` unless an outcome is already there; says whether it stored.
    pub fn set(&mut self, o: Outcome) -> (r: bool)
        ensures
            r <==> old(self)@ is None,
            final(self)@ == (if r { Some(o) } else { old(self)@ }),
    {
        if self.slot.is_some() {
            false
        } else {
            self.slot = Some(o);
            true
        }
    }

    pub fn get(&self) -> (r: Option<Outcome>)
        ensures
            r == self@,
    {
        self.slot
    }
}

} // verus!
