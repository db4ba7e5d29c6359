use vstd::prelude::*;

use crate::handle::{Handle, Outcome};

verus! {

/// How to resume a coroutine once an awaited object is done.
#[derive(Clone, Copy, Debug, PartialEq, Eq, Structural)]
pub enum Continuation {
    /// Resume after a blocking awaitable: send on success, throw its error otherwise.
    ResumeCoroutine { coro: Handle, ctx: Handle },
    /// Step again at once, after a non-blocking yield.
    RescheduleImmediate { coro: Handle, ctx: Handle },
}

/// How a woken continuation re-enters the coroutine.
#[derive(Clone, Copy, Debug, PartialEq, Eq, Structural)]
pub enum Resume {
    Send,
    Throw(Handle),
}

pub open spec fn spec_on_wake(c: Continuation, upstream: Result<(), Handle>) -> Resume {
    match c {
        Continuation::ResumeCoroutine { .. } => match upstream {
            Ok(()) => Resume::Send,
            Err(e) => Resume::Throw(e),
        },
        Continuation::RescheduleImmediate { .. } => Resume::Send,
    }
}

impl Continuation {
    /// Decides how to re-enter, given what the awaited object's `result()` gave.
    pub fn on_wake(&self, upstream: Result<(), Handle>) -> (r: Resume)
        ensures
            r == spec_on_wake(*self, upstream),
    {
        match self {
            Continuation::ResumeCoroutine { .. } => match upstream {
                Ok(()) => Resume::Send,
                Err(e) => Resume::Throw(e),
            },
            Continuation::RescheduleImmediate { .. } => Resume::Send,
        }
    }
}

/// What came of sending into the coroutine.
#[derive(Clone, Copy, Debug, PartialEq, Eq, Structural)]
pub enum SendOutcome {
    /// It yielded an awaitable whose blocking flag read as given (false when absent).
    Yielded { awaitable: Handle, blocking: bool },
    /// It returned or raised.
    Finished(Outcome),
}

/// One thing the host does, in order, on the trampoline's behalf.
#[derive(Clone, Copy, Debug, PartialEq, Eq, Structural)]
pub enum Action {
    /// Enter the execution context for a whole run.
    EnterContext(Handle),
    /// Leave it.
    ExitContext(Handle),
    /// Mark the stepper as the loop's current task.
    EnterTask,
    /// Clear that mark.
    LeaveTask,
    /// Call the coroutine's `send(None)` and report the outcome.
    Send(Handle),
    /// Call the coroutine's `throw(err)`.
    Throw { coro: Handle, err: Handle },
    /// Drop whatever error the last call left behind.
    DiscardError,
    /// Write the awaitable's blocking flag.
    SetBlocking { awaitable: Handle, value: bool },
    /// Register `cont` with the awaitable's `add_done_callback`, under `ctx`.
    AddDoneCallback { awaitable: Handle, cont: Continuation, ctx: Handle },
    /// Schedule `cont` with the loop's `call_soon`, under `ctx`.
    CallSoon { cont: Continuation, ctx: Handle },
    /// Hand the coroutine's final outcome to its owner.
    Complete(Outcome),
}

/// Errors of the one-time configuration.
#[derive(Clone, Copy, Debug, PartialEq, Eq, Structural)]
pub enum SchedulerError {
    /// The schedule function was set before.
    AlreadyConfigured,
    /// The schedule function was never set.
    NotConfigured,
}

/// The per-loop configuration of the trampoline, as a value.
pub struct SchedulerView {
    pub cb: Handle,
    pub event_loop: Handle,
    pub ctx: Handle,
    pub schedule_fn: Option<Handle>,
}

/// The per-loop configuration of the trampoline. The schedule function is set
/// once, after construction.
pub struct CallbackScheduler {
    cb: Handle,
    event_loop: Handle,
    ctx: Handle,
    schedule_fn: Option<Handle>,
}

impl View for CallbackScheduler {
    type V = SchedulerView;

    closed spec fn view(&self) -> SchedulerView {
        SchedulerView {
            cb: self.cb,
            event_loop: self.event_loop,
            ctx: self.ctx,
            schedule_fn: self.schedule_fn,
        }
    }
}

impl CallbackScheduler {
    pub fn new(event_loop: Handle, ctx: Handle, cb: Handle) -> (r: CallbackScheduler)
        ensures
            r@ == (SchedulerView { cb, event_loop, ctx, schedule_fn: None }),
    {
        CallbackScheduler { cb, event_loop, ctx, schedule_fn: None }
    }

    pub fn get_loop(&self) -> (r: Handle)
        ensures
            r == self@.event_loop,
    {
        self.event_loop
    }

    pub fn get_ctx(&self) -> (r: Handle)
        ensures
            r == self@.ctx,
    {
        self.ctx
    }

    pub fn get_cb(&self) -> (r: Handle)
        ensures
            r == self@.cb,
    {
        self.cb
    }

    /// Sets the schedule function; a second attempt is refused and changes nothing.
    pub fn set_schedule_fn(&mut self, val: Handle) -> (r: Result<(), SchedulerError>)
        ensures
            old(self)@.schedule_fn is None ==> r is Ok && final(self)@ == (SchedulerView {
                schedule_fn: Some(val),
                ..old(self)@
            }),
            old(self)@.schedule_fn is Some ==> r == Err::<(), SchedulerError>(
                SchedulerError::AlreadyConfigured,
            ) && final(self)@ == old(self)@,
    {
        if self.schedule_fn.is_some() {
            Err(SchedulerError::AlreadyConfigured)
        } else {
            self.schedule_fn = Some(val);
            Ok(())
        }
    }

    /// The function to call with the watcher to schedule it.
    pub fn schedule(&self) -> (r: Result<Handle, SchedulerError>)
        ensures
            r == (match self@.schedule_fn {
                Some(f) => Ok::<Handle, SchedulerError>(f),
                None => Err(SchedulerError::NotConfigured),
            }),
    {
        match self.schedule_fn {
            Some(f) => Ok(f),
            None => Err(SchedulerError::NotConfigured),
        }
    }
}

} // verus!
