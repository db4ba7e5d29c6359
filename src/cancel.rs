use std::sync::Arc;
use vstd::prelude::*;

verus! {

/// tokio's `Notify`, carried through opaquely.
#[verifier::external_type_specification]
#[verifier::external_body]
pub struct ExNotify(tokio::sync::Notify);

/// Relies on tokio's `Notify::new`: builds a notifier with no stored permit.
pub assume_specification[ tokio::sync::Notify::new ]() -> tokio::sync::Notify;

/// One-shot wakeup from the foreign side to the native task that owns the work.
///
/// The native side holds a clone of the shared notifier; the ghost counter records
/// how many notifications this side has sent. Only the constructors and `notify`
/// write it.
pub struct CancelSignal {
    tx: Arc<tokio::sync::Notify>,
    sent: Ghost<nat>,
}

impl CancelSignal {
    /// Number of notifications sent through this signal.
    pub closed spec fn sent(&self) -> nat {
        self.sent@
    }

    /// The notifier this signal wakes.
    pub closed spec fn notifier(&self) -> Arc<tokio::sync::Notify> {
        self.tx
    }

    pub fn new() -> (r: CancelSignal)
        ensures
            r.sent() == 0,
    {
        CancelSignal { tx: Arc::new(tokio::sync::Notify::new()), sent: Ghost(0) }
    }

    /// A signal over a notifier that another party already shares.
    pub fn attach(tx: Arc<tokio::sync::Notify>) -> (r: CancelSignal)
        ensures
            r.sent() == 0,
            r.notifier() == tx,
    {
        CancelSignal { tx, sent: Ghost(0) }
    }

    /// The native side's end of the signal.
    pub fn receiver(&self) -> (r: Arc<tokio::sync::Notify>)
        ensures
            r == self.notifier(),
    {
        self.tx.clone()
    }

    /// Relies on tokio's `Notify::notify_one`, which wakes one waiter or stores one
    /// permit; the call is counted.
    #[verifier::external_body]
    pub fn notify(&mut self)
        ensures
            final(self).sent() == old(self).sent() + 1,
            final(self).notifier() == old(self).notifier(),
    {
        self.tx.notify_one();
        self.sent = Ghost(self.sent@ + 1);
    }
}

/// Completion continuation for an upstream future: forwards its cancellation to
/// the native side.
pub struct PyFutureDoneCallback {
    cancel_tx: CancelSignal,
}

impl PyFutureDoneCallback {
    pub fn new(tx: Arc<tokio::sync::Notify>) -> (r: PyFutureDoneCallback)
        ensures
            r.sent() == 0,
            r.notifier() == tx,
    {
        PyFutureDoneCallback { cancel_tx: CancelSignal::attach(tx) }
    }

    /// Notifications forwarded so far.
    pub closed spec fn sent(&self) -> nat {
        self.cancel_tx.sent()
    }

    /// The notifier it forwards to.
    pub closed spec fn notifier(&self) -> Arc<tokio::sync::Notify> {
        self.cancel_tx.notifier()
    }

    /// Called when the upstream future is done, with whether it reports
    /// cancellation (false when it cannot tell).
    pub fn call(&mut self, upstream_cancelled: bool)
        ensures
            final(self).sent() == old(self).sent() + (if upstream_cancelled { 1nat } else { 0nat }),
            final(self).notifier() == old(self).notifier(),
    {
        if upstream_cancelled {
            self.cancel_tx.notify();
        }
    }
}

} // verus!
