use std::sync::Arc;
use vstd::prelude::*;

use crate::cancel::CancelSignal;
use crate::handle::{Handle, Outcome};
use crate::result_cell::ResultCell;

verus! {

/// Where a future stands. Pending moves once, to Completed or to Cancelled, and
/// never again.
#[derive(Clone, Copy, Debug, PartialEq, Eq, Structural)]
pub enum FutureState {
    Pending,
    Completed,
    Cancelled,
}

/// A registered completion continuation: a callable and the context to run it in.
#[derive(Clone, Copy, Debug, PartialEq, Eq, Structural)]
pub struct DoneCallback {
    pub cb: Handle,
    pub ctx: Option<Handle>,
}

/// Which of the loop's scheduling primitives a wakeup goes through.
#[derive(Clone, Copy, Debug, PartialEq, Eq, Structural)]
pub enum Primitive {
    /// `call_soon`: the caller runs on the loop thread.
    SameThread,
    /// `call_soon_threadsafe`: the caller may run on any thread.
    AnyThread,
}

/// A continuation to schedule on the loop, and how.
#[derive(Clone, Copy, Debug, PartialEq, Eq, Structural)]
pub struct Wakeup {
    pub callback: DoneCallback,
    pub primitive: Primitive,
}

pub open spec fn spec_wakeup(d: Option<DoneCallback>, p: Primitive) -> Option<Wakeup> {
    match d {
        Some(callback) => Some(Wakeup { callback, primitive: p }),
        None => None,
    }
}

/// Why `result` or `exception` gave no value.
#[derive(Clone, Copy, Debug, PartialEq, Eq, Structural)]
pub enum FutureError {
    /// The future is still pending.
    NotReady,
    /// The future was cancelled.
    Cancelled,
    /// The work ended with this error, which is raised again.
    Raised(Handle),
}

/// What one iteration of an awaitable does.
#[derive(Clone, Copy, Debug, PartialEq, Eq, Structural)]
pub enum IterStep {
    /// Not ready: yield (the awaitable itself, or a bare marker).
    Yield,
    /// Stop the iteration, carrying this value.
    Return(Handle),
    /// Raise this error out of the iteration.
    Raise(Handle),
    /// Stop the iteration with no value.
    Finish,
    /// Raise the cancellation error: the awaited future was cancelled.
    Cancelled,
}

/// The mathematical state of a `PyFutureAwaitable`.
pub struct FutureView {
    pub state: FutureState,
    pub result: Option<Outcome>,
    pub event_loop: Handle,
    pub blocking: bool,
    pub ack: Option<DoneCallback>,
    /// Notifications sent through the cancel signal.
    pub signals: nat,
}

impl FutureView {
    pub open spec fn wf(self) -> bool {
        &&& (self.state is Completed <==> self.result is Some)
        &&& self.signals == (if self.state is Cancelled { 1nat } else { 0nat })
    }
}

pub open spec fn spec_set_result(v: FutureView, o: Outcome) -> FutureView {
    if v.state is Pending {
        FutureView { state: FutureState::Completed, result: Some(o), ..v }
    } else {
        v
    }
}

pub open spec fn spec_cancel(v: FutureView) -> FutureView {
    if v.state is Pending {
        FutureView { state: FutureState::Cancelled, signals: v.signals + 1, ..v }
    } else {
        v
    }
}

/// What a state transition out of `v` schedules: the registered continuation.
pub open spec fn spec_transition_wake(v: FutureView) -> Option<DoneCallback> {
    if v.state is Pending {
        v.ack
    } else {
        None
    }
}

pub open spec fn spec_add_done_callback(v: FutureView, d: DoneCallback) -> FutureView {
    if v.state is Pending {
        FutureView { ack: Some(d), ..v }
    } else {
        v
    }
}

pub open spec fn spec_result(v: FutureView) -> Result<Handle, FutureError> {
    match v.state {
        FutureState::Pending => Err(FutureError::NotReady),
        FutureState::Cancelled => Err(FutureError::Cancelled),
        FutureState::Completed => match v.result {
            Some(Outcome::Value(h)) => Ok(h),
            Some(Outcome::Error(e)) => Err(FutureError::Raised(e)),
            None => Err(FutureError::NotReady),
        },
    }
}

pub open spec fn spec_exception(v: FutureView) -> Result<(), FutureError> {
    match spec_result(v) {
        Ok(_) => Ok(()),
        Err(e) => Err(e),
    }
}

pub open spec fn spec_step(v: FutureView) -> IterStep {
    match (v.state, v.result) {
        (FutureState::Completed, Some(Outcome::Value(h))) => IterStep::Return(h),
        (FutureState::Completed, Some(Outcome::Error(e))) => IterStep::Raise(e),
        (FutureState::Cancelled, _) => IterStep::Cancelled,
        _ => IterStep::Yield,
    }
}

/// Emulation of the foreign loop's Future: a tri-state machine, a write-once
/// result, one optional completion continuation, and a cancel signal.
///
/// Calls into the foreign loop are not made here: methods that must schedule a
/// continuation return it, and the host schedules it.
pub struct PyFutureAwaitable {
    state: FutureState,
    result: ResultCell,
    event_loop: Handle,
    cancel_tx: CancelSignal,
    py_block: bool,
    ack: Option<DoneCallback>,
}

impl View for PyFutureAwaitable {
    type V = FutureView;

    closed spec fn view(&self) -> FutureView {
        FutureView {
            state: self.state,
            result: self.result@,
            event_loop: self.event_loop,
            blocking: self.py_block,
            ack: self.ack,
            signals: self.cancel_tx.sent(),
        }
    }
}

impl PyFutureAwaitable {
    /// The notifier that a cancellation wakes, shared with the native side.
    pub closed spec fn notifier(&self) -> Arc<tokio::sync::Notify> {
        self.cancel_tx.notifier()
    }

    pub fn new(event_loop: Handle) -> (r: PyFutureAwaitable)
        ensures
            r@.wf(),
            r@.state is Pending,
            r@.result is None,
            r@.event_loop == event_loop,
            r@.blocking,
            r@.ack is None,
            r@.signals == 0,
    {
        PyFutureAwaitable {
            state: FutureState::Pending,
            result: ResultCell::new(),
            event_loop,
            cancel_tx: CancelSignal::new(),
            py_block: true,
            ack: None,
        }
    }

    /// Hands the future out together with the native side's end of its cancel signal.
    pub fn to_spawn(self) -> (r: (PyFutureAwaitable, Arc<tokio::sync::Notify>))
        ensures
            r.0@ == self@,
            r.0.notifier() == self.notifier(),
            r.1 == self.notifier(),
    {
        let rx = self.cancel_tx.receiver();
        (self, rx)
    }

    /// Completes the future with `o` if it is pending. May be called from any
    /// thread, so the registered continuation, if any, is returned for the loop's
    /// thread-safe primitive.
    pub fn set_result(&mut self, o: Outcome) -> (r: Option<Wakeup>)
        requires
            old(self)@.wf(),
        ensures
            final(self)@.wf(),
            final(self).notifier() == old(self).notifier(),
            final(self)@ == spec_set_result(old(self)@, o),
            r == spec_wakeup(spec_transition_wake(old(self)@), Primitive::AnyThread),
    {
        if self.state != FutureState::Pending {
            return None;
        }
        self.state = FutureState::Completed;
        let _ = self.result.set(o);
        match self.ack {
            Some(callback) => Some(Wakeup { callback, primitive: Primitive::AnyThread }),
            None => None,
        }
    }

    /// One iteration of the awaitable protocol.
    pub fn step(&self) -> (r: IterStep)
        requires
            self@.wf(),
        ensures
            r == spec_step(self@),
    {
        if self.state == FutureState::Completed {
            match self.result.get() {
                Some(Outcome::Value(h)) => IterStep::Return(h),
                Some(Outcome::Error(e)) => IterStep::Raise(e),
                None => IterStep::Yield,
            }
        } else if self.state == FutureState::Cancelled {
            IterStep::Cancelled
        } else {
            IterStep::Yield
        }
    }

    pub fn get_block(&self) -> (r: bool)
        ensures
            r == self@.blocking,
    {
        self.py_block
    }

    pub fn set_block(&mut self, val: bool)
        ensures
            final(self)@ == (FutureView { blocking: val, ..old(self)@ }),
            final(self).notifier() == old(self).notifier(),
    {
        self.py_block = val;
    }

    pub fn get_loop(&self) -> (r: Handle)
        ensures
            r == self@.event_loop,
    {
        self.event_loop
    }

    /// Registers `cb` while pending, replacing any earlier registration. Once done,
    /// returns the continuation to schedule at once, through the thread-safe
    /// primitive.
    pub fn add_done_callback(&mut self, cb: Handle, context: Option<Handle>) -> (r: Option<
        Wakeup,
    >)
        requires
            old(self)@.wf(),
        ensures
            final(self)@.wf(),
            final(self).notifier() == old(self).notifier(),
            final(self)@ == spec_add_done_callback(old(self)@, DoneCallback { cb, ctx: context }),
            r == (if old(self)@.state is Pending {
                None
            } else {
                Some(
                    Wakeup {
                        callback: DoneCallback { cb, ctx: context },
                        primitive: Primitive::AnyThread,
                    },
                )
            }),
    {
        let d = DoneCallback { cb, ctx: context };
        if self.state == FutureState::Pending {
            self.ack = Some(d);
            None
        } else {
            Some(Wakeup { callback: d, primitive: Primitive::AnyThread })
        }
    }

    /// The registered continuation, if any.
    pub fn registered(&self) -> (r: Option<DoneCallback>)
        ensures
            r == self@.ack,
    {
        self.ack
    }

    /// Clears the registration; returns how many were removed (0 or 1).
    pub fn remove_done_callback(&mut self, cb: Handle) -> (r: i32)
        requires
            old(self)@.wf(),
        ensures
            final(self)@.wf(),
            final(self).notifier() == old(self).notifier(),
            final(self)@ == (FutureView { ack: None, ..old(self)@ }),
            r == (if old(self)@.ack is Some { 1i32 } else { 0i32 }),
    {
        let present = self.ack.is_some();
        self.ack = None;
        if present {
            1
        } else {
            0
        }
    }

    /// Cancels the future if it is pending: signals the native side once, and
    /// returns the registered continuation to schedule from the loop thread, where
    /// `cancel` is called. The flag says whether the cancellation took effect.
    pub fn cancel(&mut self, msg: Option<Handle>) -> (r: (bool, Option<Wakeup>))
        requires
            old(self)@.wf(),
        ensures
            final(self)@.wf(),
            final(self).notifier() == old(self).notifier(),
            final(self)@ == spec_cancel(old(self)@),
            r.0 <==> old(self)@.state is Pending,
            r.1 == spec_wakeup(spec_transition_wake(old(self)@), Primitive::SameThread),
    {
        if self.state != FutureState::Pending {
            return (false, None);
        }
        self.state = FutureState::Cancelled;
        self.cancel_tx.notify();
        match self.ack {
            Some(callback) => (true, Some(Wakeup { callback, primitive: Primitive::SameThread })),
            None => (true, None),
        }
    }

    pub fn cancelling(&self) -> (r: i32)
        ensures
            r == 0,
    {
        0
    }

    pub fn uncancel(&self) -> (r: i32)
        ensures
            r == 0,
    {
        0
    }

    pub fn done(&self) -> (r: bool)
        ensures
            r <==> !(self@.state is Pending),
    {
        self.state != FutureState::Pending
    }

    pub fn result(&self) -> (r: Result<Handle, FutureError>)
        requires
            self@.wf(),
        ensures
            r == spec_result(self@),
    {
        match self.state {
            FutureState::Pending => Err(FutureError::NotReady),
            FutureState::Cancelled => Err(FutureError::Cancelled),
            FutureState::Completed => match self.result.get() {
                Some(Outcome::Value(h)) => Ok(h),
                Some(Outcome::Error(e)) => Err(FutureError::Raised(e)),
                None => Err(FutureError::NotReady),
            },
        }
    }

    pub fn exception(&self) -> (r: Result<(), FutureError>)
        requires
            self@.wf(),
        ensures
            r == spec_exception(self@),
    {
        match self.result() {
            Ok(_) => Ok(()),
            Err(e) => Err(e),
        }
    }
}

} // verus!
