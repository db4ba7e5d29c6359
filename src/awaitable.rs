use vstd::prelude::*;

use crate::future::IterStep;
use crate::handle::Outcome;
use crate::result_cell::ResultCell;

verus! {

/// An awaitable that is complete from the start.
pub struct PyEmptyAwaitable;

impl PyEmptyAwaitable {
    pub fn step(&self) -> (r: IterStep)
        ensures
            r == IterStep::Finish,
    {
        IterStep::Finish
    }
}

/// What one iteration of the fast-path awaitable does with its cell in state `c`.
pub open spec fn spec_iter_step(c: Option<Outcome>) -> IterStep {
    match c {
        None => IterStep::Yield,
        Some(Outcome::Value(h)) => IterStep::Return(h),
        Some(Outcome::Error(e)) => IterStep::Raise(e),
    }
}

/// The fast-path awaitable's cell after `set_result(o)`.
pub open spec fn spec_iter_set(c: Option<Outcome>, o: Outcome) -> Option<Outcome> {
    if c is None {
        Some(o)
    } else {
        c
    }
}

/// `n` iterations in a row of the fast-path awaitable in state `c`.
pub open spec fn spec_polls(c: Option<Outcome>, n: nat) -> Seq<IterStep> {
    Seq::new(n, |i: int| spec_iter_step(c))
}

/// An awaitable for a result produced within the same step, with no cross-thread
/// notification. Each iteration yields "not ready" until the result is set, then
/// ends carrying it. It is used once.
pub struct PyIterAwaitable {
    result: ResultCell,
}

impl View for PyIterAwaitable {
    type V = Option<Outcome>;

    closed spec fn view(&self) -> Option<Outcome> {
        self.result@
    }
}

impl PyIterAwaitable {
    pub fn new() -> (r: PyIterAwaitable)
        ensures
            r@ is None,
    {
        PyIterAwaitable { result: ResultCell::new() }
    }

    /// Stores `o` unless a result is already there.
    pub fn set_result(&mut self, o: Outcome)
        ensures
            final(self)@ == spec_iter_set(old(self)@, o),
    {
        let _ = self.result.set(o);
    }

    pub fn step(&self) -> (r: IterStep)
        ensures
            r == spec_iter_step(self@),
    {
        match self.result.get() {
            None => IterStep::Yield,
            Some(Outcome::Value(h)) => IterStep::Return(h),
            Some(Outcome::Error(e)) => IterStep::Raise(e),
        }
    }
}

/// While unset, any number of iterations all yield "not ready"; once set, the next
/// iteration ends with the stored outcome, and a second `set_result` changes
/// nothing.
pub proof fn lemma_fast_path(o: Outcome, later: Outcome, n: nat)
    ensures
        forall|i: int| 0 <= i < n ==> #[trigger] spec_polls(None, n)[i] == IterStep::Yield,
        spec_iter_step(spec_iter_set(None, o)) == (match o {
            Outcome::Value(h) => IterStep::Return(h),
            Outcome::Error(e) => IterStep::Raise(e),
        }),
        spec_iter_set(spec_iter_set(None, o), later) == Some(o),
{
}

} // verus!
