use std::future::Future;
use std::sync::Arc;
use std::task::{Context, Poll, Wake, Waker};

use aio_bridge::cancel::PyFutureDoneCallback;
use aio_bridge::future::{FutureError, PyFutureAwaitable};
use aio_bridge::handle::{Handle, Outcome};
use aio_bridge::scheduler::{
    Action, CallbackScheduler, Continuation, Resume, SchedulerError, SendOutcome,
};
use aio_bridge::stepper::CallbackSchedulerStep;

struct NoWake;

impl Wake for NoWake {
    fn wake(self: Arc<Self>) {}
}

fn h(id: u64) -> Handle {
    Handle { id }
}

fn take_permit(n: &tokio::sync::Notify) -> bool {
    let waker = Waker::from(Arc::new(NoWake));
    let mut cx = Context::from_waker(&waker);
    let mut fut = Box::pin(n.notified());
    matches!(fut.as_mut().poll(&mut cx), Poll::Ready(()))
}

fn is_suspension(a: &Action) -> bool {
    matches!(a, Action::AddDoneCallback { .. } | Action::CallSoon { .. })
}

#[test]
fn immediate_completion_fills_future() {
    let coro = h(10);
    let ctx = h(11);
    let mut s = CallbackSchedulerStep::new(coro, ctx);
    let first = s.run();
    assert_eq!(first, vec![Action::EnterContext(ctx), Action::EnterTask, Action::Send(coro)]);
    let rest = s.on_sent(SendOutcome::Finished(Outcome::Value(h(42))));
    assert_eq!(
        rest,
        vec![Action::Complete(Outcome::Value(h(42))), Action::LeaveTask, Action::ExitContext(ctx)]
    );
    assert!(!first.iter().chain(rest.iter()).any(is_suspension));
    let mut f = PyFutureAwaitable::new(h(1));
    for a in rest.iter() {
        if let Action::Complete(o) = a {
            f.set_result(*o);
        }
    }
    assert!(f.done());
    assert_eq!(f.result(), Ok(h(42)));
}

#[test]
fn blocking_yield_registers_resume() {
    let coro = h(10);
    let ctx = h(11);
    let aw = h(20);
    let mut s = CallbackSchedulerStep::new(coro, ctx);
    assert_eq!(s.send(), vec![Action::EnterTask, Action::Send(coro)]);
    let rest = s.on_sent(SendOutcome::Yielded { awaitable: aw, blocking: true });
    assert_eq!(
        rest,
        vec![
            Action::SetBlocking { awaitable: aw, value: false },
            Action::AddDoneCallback {
                awaitable: aw,
                cont: Continuation::ResumeCoroutine { coro, ctx },
                ctx,
            },
            Action::LeaveTask,
        ]
    );
    assert_eq!(s.cancel(), Some(aw));
}

#[test]
fn non_blocking_yield_reschedules() {
    let coro = h(10);
    let ctx = h(11);
    let mut s = CallbackSchedulerStep::new(coro, ctx);
    s.send();
    let rest = s.on_sent(SendOutcome::Yielded { awaitable: h(20), blocking: false });
    assert_eq!(
        rest,
        vec![
            Action::CallSoon { cont: Continuation::RescheduleImmediate { coro, ctx }, ctx },
            Action::LeaveTask,
        ]
    );
    assert_eq!(s.cancel(), None);
}

#[test]
fn raising_coroutine_leaves_task_once() {
    let ctx = h(11);
    let mut s = CallbackSchedulerStep::new(h(10), ctx);
    let mut all = s.run();
    all.extend(s.on_sent(SendOutcome::Finished(Outcome::Error(h(99)))));
    assert_eq!(all.iter().filter(|a| **a == Action::EnterTask).count(), 1);
    assert_eq!(all.iter().filter(|a| **a == Action::LeaveTask).count(), 1);
    assert_eq!(all.iter().filter(|a| **a == Action::ExitContext(ctx)).count(), 1);
    assert_eq!(all.last(), Some(&Action::ExitContext(ctx)));
}

#[test]
fn throw_discards_and_leaves() {
    let coro = h(10);
    let s = CallbackSchedulerStep::new(coro, h(11));
    assert_eq!(
        s.throw(h(5)),
        vec![
            Action::EnterTask,
            Action::Throw { coro, err: h(5) },
            Action::DiscardError,
            Action::LeaveTask,
        ]
    );
}

#[test]
fn wake_resumes_or_throws() {
    let coro = h(10);
    let ctx = h(11);
    let resume = Continuation::ResumeCoroutine { coro, ctx };
    let again = Continuation::RescheduleImmediate { coro, ctx };
    let mut s = CallbackSchedulerStep::new(coro, ctx);
    assert_eq!(s.wake(resume, Err(h(4)))[1], Action::Throw { coro, err: h(4) });
    assert_eq!(s.wake(resume, Ok(())), vec![Action::EnterTask, Action::Send(coro)]);
    s.on_sent(SendOutcome::Yielded { awaitable: h(20), blocking: false });
    assert_eq!(s.wake(again, Err(h(4))), vec![Action::EnterTask, Action::Send(coro)]);
    assert_eq!(s.cancelling(), 0);
    assert_eq!(s.uncancel(), 0);
}

#[test]
fn continuations_decide_resume() {
    let r = Continuation::ResumeCoroutine { coro: h(1), ctx: h(2) };
    let i = Continuation::RescheduleImmediate { coro: h(1), ctx: h(2) };
    assert_eq!(r.on_wake(Ok(())), Resume::Send);
    assert_eq!(r.on_wake(Err(h(3))), Resume::Throw(h(3)));
    assert_eq!(i.on_wake(Err(h(3))), Resume::Send);
}

#[test]
fn schedule_fn_is_set_once() {
    let mut c = CallbackScheduler::new(h(1), h(2), h(3));
    assert_eq!(c.get_loop(), h(1));
    assert_eq!(c.get_ctx(), h(2));
    assert_eq!(c.get_cb(), h(3));
    assert_eq!(c.schedule(), Err(SchedulerError::NotConfigured));
    assert_eq!(c.set_schedule_fn(h(4)), Ok(()));
    assert_eq!(c.set_schedule_fn(h(5)), Err(SchedulerError::AlreadyConfigured));
    assert_eq!(c.schedule(), Ok(h(4)));
}

#[test]
fn cancel_while_awaiting_foreign_future() {
    let coro = h(10);
    let ctx = h(11);
    let foreign = h(20);
    let (mut f, rx) = PyFutureAwaitable::new(h(1)).to_spawn();
    let mut s = CallbackSchedulerStep::new(coro, ctx);
    s.run();
    let rest = s.on_sent(SendOutcome::Yielded { awaitable: foreign, blocking: true });
    assert!(rest.iter().any(is_suspension));
    assert_eq!(s.cancel(), Some(foreign));
    assert!(f.cancel(None).0);
    assert!(!f.cancel(None).0);
    assert!(take_permit(&rx));
    assert!(!take_permit(&rx));
    assert_eq!(f.result(), Err(FutureError::Cancelled));
}

#[test]
fn done_callback_forwards_cancellation() {
    let rx = Arc::new(tokio::sync::Notify::new());
    let mut d = PyFutureDoneCallback::new(rx.clone());
    d.call(false);
    assert!(!take_permit(&rx));
    d.call(true);
    assert!(take_permit(&rx));
}
