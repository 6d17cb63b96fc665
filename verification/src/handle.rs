use vstd::prelude::*;

verus! {

#[verifier::external_type_specification]
#[verifier::external_body]
#[verifier::reject_recursive_types(T)]
pub struct ExOneshotSender<T>(tokio::sync::oneshot::Sender<T>);

/// Relies on tokio::sync::oneshot::Sender::send: delivers at most one value
/// to the paired receiver; the result only reports whether the receiving
/// side was still alive, so nothing is promised of it.
#[verifier::external_body]
pub(crate) fn oneshot_notify(tx: tokio::sync::oneshot::Sender<()>) -> (delivered: bool)
{
    tx.send(()).is_ok()
}

/// A join handle for a scheduled background activity (a delay or interval
/// timer, or a stream bridge). Invoking it asks the activity to stop;
/// dropping it without invoking it lets the activity run to natural
/// completion.
pub struct ContextJoinHandle {
    handle: tokio::sync::oneshot::Sender<()>,
}

impl ContextJoinHandle {
    /// Wraps the send half of an activity's cancellation channel; the
    /// background task listens on the paired receive half.
    pub fn new(handle: tokio::sync::oneshot::Sender<()>) -> ContextJoinHandle {
        ContextJoinHandle { handle }
    }

    /// Signals the background activity to stop. The signal fires at most
    /// once: the handle is consumed, and a signal after the activity has
    /// already finished is ignored by the closed channel.
    pub fn cancel(self) {
        let _ = oneshot_notify(self.handle);
    }
}

} // verus!
