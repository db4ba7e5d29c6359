use vstd::prelude::*;

use crate::handle::Handle;
use crate::scheduler::{spec_on_wake, Action, Continuation, Resume, SendOutcome};

verus! {

/// Where the stepper is within a step.
#[derive(Clone, Copy, Debug, PartialEq, Eq, Structural)]
pub enum Phase {
    /// Between steps.
    Idle,
    /// Entered, waiting for the outcome of `send`; `outer` when the step also
    /// entered the execution context.
    Sending { outer: bool },
}

/// The actions that open a step, up to the `send`.
pub open spec fn spec_start(coro: Handle, ctx: Handle, outer: bool) -> Seq<Action> {
    if outer {
        seq![Action::EnterContext(ctx), Action::EnterTask, Action::Send(coro)]
    } else {
        seq![Action::EnterTask, Action::Send(coro)]
    }
}

/// What follows a `send` with outcome `out`, before the step closes.
pub open spec fn spec_plan(coro: Handle, ctx: Handle, out: SendOutcome) -> Seq<Action> {
    match out {
        SendOutcome::Yielded { awaitable, blocking } => if blocking {
            seq![
                Action::SetBlocking { awaitable, value: false },
                Action::AddDoneCallback {
                    awaitable,
                    cont: Continuation::ResumeCoroutine { coro, ctx },
                    ctx,
                },
            ]
        } else {
            seq![Action::CallSoon { cont: Continuation::RescheduleImmediate { coro, ctx }, ctx }]
        },
        SendOutcome::Finished(o) => seq![Action::Complete(o)],
    }
}

/// The actions that close a step after a `send` with outcome `out`.
pub open spec fn spec_finish(coro: Handle, ctx: Handle, outer: bool, out: SendOutcome) -> Seq<
    Action,
> {
    spec_plan(coro, ctx, out) + if outer {
        seq![Action::LeaveTask, Action::ExitContext(ctx)]
    } else {
        seq![Action::LeaveTask]
    }
}

/// A whole `throw` step: the error raised back is dropped, the task is left.
pub open spec fn spec_throw(coro: Handle, err: Handle) -> Seq<Action> {
    seq![Action::EnterTask, Action::Throw { coro, err }, Action::DiscardError, Action::LeaveTask]
}

/// The awaitable a step leaves in flight, if it suspended on one.
pub open spec fn spec_in_flight(out: SendOutcome) -> Option<Handle> {
    match out {
        SendOutcome::Yielded { awaitable, blocking } => if blocking {
            Some(awaitable)
        } else {
            None
        },
        SendOutcome::Finished(_) => None,
    }
}

pub struct StepperView {
    pub coro: Handle,
    pub ctx: Handle,
    pub in_flight: Option<Handle>,
    pub phase: Phase,
}

/// Drives one coroutine across its suspension points. Each step is bracketed by
/// entering and leaving the loop's current task; the host performs the returned
/// actions in order and reports what `send` gave.
pub struct CallbackSchedulerStep {
    coro: Handle,
    ctx: Handle,
    futw: Option<Handle>,
    phase: Phase,
}

impl View for CallbackSchedulerStep {
    type V = StepperView;

    closed spec fn view(&self) -> StepperView {
        StepperView { coro: self.coro, ctx: self.ctx, in_flight: self.futw, phase: self.phase }
    }
}

impl CallbackSchedulerStep {
    pub fn new(coro: Handle, ctx: Handle) -> (r: CallbackSchedulerStep)
        ensures
            r@ == (StepperView { coro, ctx, in_flight: None, phase: Phase::Idle }),
    {
        CallbackSchedulerStep { coro, ctx, futw: None, phase: Phase::Idle }
    }

    pub fn phase(&self) -> (r: Phase)
        ensures
            r == self@.phase,
    {
        self.phase
    }

    fn open_step(&mut self, outer: bool) -> (r: Vec<Action>)
        requires
            old(self)@.phase is Idle,
        ensures
            r@ == spec_start(old(self)@.coro, old(self)@.ctx, outer),
            final(self)@ == (StepperView {
                in_flight: None,
                phase: Phase::Sending { outer },
                ..old(self)@
            }),
    {
        self.futw = None;
        self.phase = Phase::Sending { outer };
        if outer {
            vec![Action::EnterContext(self.ctx), Action::EnterTask, Action::Send(self.coro)]
        } else {
            vec![Action::EnterTask, Action::Send(self.coro)]
        }
    }

    /// The first step of a run, inside a fresh execution context.
    pub fn run(&mut self) -> (r: Vec<Action>)
        requires
            old(self)@.phase is Idle,
        ensures
            r@ == spec_start(old(self)@.coro, old(self)@.ctx, true),
            final(self)@ == (StepperView {
                in_flight: None,
                phase: Phase::Sending { outer: true },
                ..old(self)@
            }),
    {
        self.open_step(true)
    }

    /// A later step: resume the coroutine with `send(None)`.
    pub fn send(&mut self) -> (r: Vec<Action>)
        requires
            old(self)@.phase is Idle,
        ensures
            r@ == spec_start(old(self)@.coro, old(self)@.ctx, false),
            final(self)@ == (StepperView {
                in_flight: None,
                phase: Phase::Sending { outer: false },
                ..old(self)@
            }),
    {
        self.open_step(false)
    }

    /// Closes the step given what `send` gave: registers the right continuation,
    /// or hands over the final outcome, then leaves.
    pub fn on_sent(&mut self, out: SendOutcome) -> (r: Vec<Action>)
        requires
            old(self)@.phase is Sending,
        ensures
            r@ == spec_finish(old(self)@.coro, old(self)@.ctx, old(self)@.phase->outer, out),
            final(self)@ == (StepperView {
                in_flight: spec_in_flight(out),
                phase: Phase::Idle,
                ..old(self)@
            }),
    {
        let outer = match self.phase {
            Phase::Sending { outer } => outer,
            Phase::Idle => false,
        };
        let coro = self.coro;
        let ctx = self.ctx;
        self.futw = None;
        let mut acts: Vec<Action> = match out {
            SendOutcome::Yielded { awaitable, blocking } => {
                if blocking {
                    self.futw = Some(awaitable);
                    vec![
                        Action::SetBlocking { awaitable, value: false },
                        Action::AddDoneCallback {
                            awaitable,
                            cont: Continuation::ResumeCoroutine { coro, ctx },
                            ctx,
                        },
                    ]
                } else {
                    vec![
                        Action::CallSoon {
                            cont: Continuation::RescheduleImmediate { coro, ctx },
                            ctx,
                        },
                    ]
                }
            },
            SendOutcome::Finished(o) => vec![Action::Complete(o)],
        };
        acts.push(Action::LeaveTask);
        if outer {
            acts.push(Action::ExitContext(ctx));
        }
        self.phase = Phase::Idle;
        acts
    }

    /// Throws `err` into the coroutine; what it raises in response is dropped.
    pub fn throw(&self, err: Handle) -> (r: Vec<Action>)
        requires
            self@.phase is Idle,
        ensures
            r@ == spec_throw(self@.coro, err),
    {
        vec![
            Action::EnterTask,
            Action::Throw { coro: self.coro, err },
            Action::DiscardError,
            Action::LeaveTask,
        ]
    }

    /// Runs continuation `cont`, given what the awaited object's `result()` gave
    /// (`Ok` when there is none to ask): a fresh step, or a throw of the error.
    pub fn wake(&mut self, cont: Continuation, upstream: Result<(), Handle>) -> (r: Vec<Action>)
        requires
            old(self)@.phase is Idle,
        ensures
            spec_on_wake(cont, upstream) is Send ==> r@ == spec_start(
                old(self)@.coro,
                old(self)@.ctx,
                false,
            ) && final(self)@ == (StepperView {
                in_flight: None,
                phase: Phase::Sending { outer: false },
                ..old(self)@
            }),
            spec_on_wake(cont, upstream) is Throw ==> r@ == spec_throw(
                old(self)@.coro,
                spec_on_wake(cont, upstream)->Throw_0,
            ) && final(self)@ == old(self)@,
    {
        match cont.on_wake(upstream) {
            Resume::Send => self.send(),
            Resume::Throw(e) => self.throw(e),
        }
    }

    /// The awaitable to forward a cancellation to, if one is in flight; with none,
    /// cancelling the stepper does nothing and reports false.
    pub fn cancel(&self) -> (r: Option<Handle>)
        ensures
            r == self@.in_flight,
    {
        self.futw
    }

    pub fn cancelling(&self) -> (r: i32)
        ensures
            r == 0,
    {
        0
    }

    pub fn uncancel(&self) -> (r: i32)
        ensures
            r == 0,
    {
        0
    }
}

/// Every step, whatever `send` gave and whether or not it raised, enters the task
/// once at its start and leaves it once at its end (inside the execution context,
/// which is itself entered first and left last when the step opened a run).
pub proof fn lemma_step_brackets(coro: Handle, ctx: Handle, outer: bool, out: SendOutcome)
    ensures
        ({
            let s = spec_start(coro, ctx, outer) + spec_finish(coro, ctx, outer, out);
            let k: int = if outer { 1 } else { 0 };
            &&& forall|i: int| 0 <= i < s.len() ==> (#[trigger] s[i] == Action::EnterTask <==> i == k)
            &&& forall|i: int| 0 <= i < s.len() ==> (#[trigger] s[i] == Action::LeaveTask <==> i == s.len() - 1 - k)
            &&& forall|i: int| 0 <= i < s.len() ==> (#[trigger] s[i] is EnterContext <==> outer && i == 0)
            &&& forall|i: int| 0 <= i < s.len() ==> (#[trigger] s[i] is ExitContext <==> outer && i == s.len() - 1)
        }),
{
}

/// A `throw` step enters the task once first and leaves it once last.
pub proof fn lemma_throw_brackets(coro: Handle, err: Handle)
    ensures
        forall|i: int| 0 <= i < 4 ==> (#[trigger] spec_throw(coro, err)[i] == Action::EnterTask <==> i == 0),
        forall|i: int| 0 <= i < 4 ==> (#[trigger] spec_throw(coro, err)[i] == Action::LeaveTask <==> i == 3),
        spec_throw(coro, err).len() == 4,
{
}

} // verus!
