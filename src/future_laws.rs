use vstd::prelude::*;

use crate::future::{
    spec_add_done_callback, spec_cancel, spec_exception, spec_result, spec_set_result,
    spec_transition_wake, DoneCallback, FutureError, FutureView,
};
use crate::handle::{Handle, Outcome};

verus! {

/// An operation on a future that may change it.
pub enum FutureOp {
    SetResult(Outcome),
    Cancel,
    AddDoneCallback(DoneCallback),
    RemoveDoneCallback,
    SetBlocking(bool),
}

/// The future after `op`, as the methods' contracts state it.
pub open spec fn spec_apply(v: FutureView, op: FutureOp) -> FutureView {
    match op {
        FutureOp::SetResult(o) => spec_set_result(v, o),
        FutureOp::Cancel => spec_cancel(v),
        FutureOp::AddDoneCallback(d) => spec_add_done_callback(v, d),
        FutureOp::RemoveDoneCallback => FutureView { ack: None, ..v },
        FutureOp::SetBlocking(b) => FutureView { blocking: b, ..v },
    }
}

/// The future after each of `ops` in turn.
pub open spec fn spec_run(v: FutureView, ops: Seq<FutureOp>) -> FutureView
    decreases ops.len(),
{
    if ops.len() == 0 {
        v
    } else {
        spec_run(spec_apply(v, ops[0]), ops.drop_first())
    }
}

/// How many continuations the state transitions among `ops` schedule.
pub open spec fn spec_transition_wakes(v: FutureView, ops: Seq<FutureOp>) -> nat
    decreases ops.len(),
{
    if ops.len() == 0 {
        0
    } else {
        let here: nat = match ops[0] {
            FutureOp::SetResult(_) | FutureOp::Cancel => if spec_transition_wake(v) is Some {
                1nat
            } else {
                0nat
            },
            _ => 0nat,
        };
        here + spec_transition_wakes(spec_apply(v, ops[0]), ops.drop_first())
    }
}

/// Once a future is completed or cancelled, no later operation changes its state,
/// its result, or the count of cancel notifications, and no later `set_result` or
/// `cancel` schedules anything.
pub proof fn lemma_terminal_is_stable(v: FutureView, ops: Seq<FutureOp>)
    requires
        v.wf(),
        !(v.state is Pending),
    ensures
        spec_run(v, ops).wf(),
        spec_run(v, ops).state == v.state,
        spec_run(v, ops).result == v.result,
        spec_run(v, ops).signals == v.signals,
        spec_result(spec_run(v, ops)) == spec_result(v),
        spec_transition_wakes(v, ops) == 0,
    decreases ops.len(),
{
    if ops.len() > 0 {
        lemma_terminal_is_stable(spec_apply(v, ops[0]), ops.drop_first());
    }
}

/// After a cancel that took effect, `result` and `exception` report cancellation
/// from then on, and the native side has been notified exactly once, whatever
/// further calls (a second `cancel` among them) come after.
pub proof fn lemma_cancel_visible(v: FutureView, ops: Seq<FutureOp>)
    requires
        v.wf(),
        v.state is Pending,
    ensures
        spec_result(spec_run(spec_cancel(v), ops)) == Err::<Handle, FutureError>(
            FutureError::Cancelled,
        ),
        spec_exception(spec_run(spec_cancel(v), ops)) == Err::<(), FutureError>(
            FutureError::Cancelled,
        ),
        spec_run(spec_cancel(v), ops).signals == 1,
        spec_cancel(spec_cancel(v)) == spec_cancel(v),
{
    lemma_terminal_is_stable(spec_cancel(v), ops);
}

/// A continuation registered while pending is scheduled by the first transition,
/// which has already left Pending, and by no later transition.
pub proof fn lemma_delivered_once(v: FutureView, d: DoneCallback, first: FutureOp, rest: Seq<FutureOp>)
    requires
        v.wf(),
        v.state is Pending,
        first is SetResult || first is Cancel,
    ensures
        spec_transition_wake(spec_add_done_callback(v, d)) == Some(d),
        !(spec_apply(spec_add_done_callback(v, d), first).state is Pending),
        spec_transition_wakes(spec_add_done_callback(v, d), seq![first] + rest) == 1,
{
    let r = spec_add_done_callback(v, d);
    let after = spec_apply(r, first);
    lemma_terminal_is_stable(after, rest);
    let ops = seq![first] + rest;
    assert(ops[0] == first);
    assert(ops.drop_first() =~= rest);
}

/// Once `set_result(o)` takes effect with a value, `result` returns that value
/// after any further operations.
pub proof fn lemma_result_stable(v: FutureView, h: Handle, ops: Seq<FutureOp>)
    requires
        v.wf(),
        v.state is Pending,
    ensures
        spec_result(spec_set_result(v, Outcome::Value(h))) == Ok::<Handle, FutureError>(h),
        spec_result(spec_run(spec_set_result(v, Outcome::Value(h)), ops)) == Ok::<
            Handle,
            FutureError,
        >(h),
{
    lemma_terminal_is_stable(spec_set_result(v, Outcome::Value(h)), ops);
}

} // verus!
