use vstd::prelude::*;
use crate::message::{ActorState, Pending};
use crate::registry::Registry;

verus! {

/// The abstract contents of a context: its lifecycle state, whether the
/// mailbox still accepts new external sends, and the two token queues.
pub struct ContextView {
    pub state: ActorState,
    pub mailbox_closed: bool,
    pub intervals: Map<usize, Pending>,
    pub delays: Map<usize, Pending>,
}

/// Per-actor bookkeeping: the lifecycle state and the token queues for
/// one-shot (delay) and recurring (interval) scheduled messages.
///
/// The mailbox transport itself is owned by the runtime that drives the
/// actor; `mailbox_closed` records the decision that the transport must
/// accept no further external sends, and the runtime closes its receive
/// end whenever that flag is set by `stop`.
pub struct Context {
    state: ActorState,
    mailbox_closed: bool,
    interval_queue: Registry,
    delay_queue: Registry,
}

impl View for Context {
    type V = ContextView;

    closed spec fn view(&self) -> ContextView {
        ContextView {
            state: self.state,
            mailbox_closed: self.mailbox_closed,
            intervals: self.interval_queue@,
            delays: self.delay_queue@,
        }
    }
}

/// The context after `stop`: the mailbox is closed for new external sends
/// and the state is `StopGraceful`; queued work is not discarded.
pub open spec fn stopped(c: ContextView) -> ContextView {
    ContextView { state: ActorState::StopGraceful, mailbox_closed: true, ..c }
}

impl Context {
    /// A fresh context: state `Stop`, mailbox open, both queues empty.
    pub fn new() -> (c: Context)
        ensures
            c@.state == ActorState::Stop,
            !c@.mailbox_closed,
            c@.intervals == crate::registry::no_entries(),
            c@.delays == crate::registry::no_entries(),
    {
        Context {
            state: ActorState::Stop,
            mailbox_closed: false,
            interval_queue: Registry::new(),
            delay_queue: Registry::new(),
        }
    }

    /// Promotes a freshly started context to `Running`. The state only
    /// moves forward: a context that is already stopping stays as it is,
    /// so a stop requested during the start hook is not undone.
    pub fn mark_running(&mut self)
        ensures
            final(self)@ == (ContextView {
                state: if old(self)@.state is Stop { ActorState::Running } else { old(self)@.state },
                ..old(self)@
            }),
    {
        if self.state == ActorState::Stop {
            self.state = ActorState::Running;
        }
    }

    /// Stops the context: closes the mailbox for new external sends and
    /// marks the state `StopGraceful`. Already-queued and already-scheduled
    /// messages still drain; nothing is discarded here.
    pub fn stop(&mut self)
        ensures
            final(self)@ == stopped(old(self)@),
    {
        self.mailbox_closed = true;
        self.state = ActorState::StopGraceful;
    }

    pub fn state(&self) -> (s: ActorState)
        ensures
            s == self@.state,
    {
        self.state
    }

    pub fn is_mailbox_closed(&self) -> (closed: bool)
        ensures
            closed == self@.mailbox_closed,
    {
        self.mailbox_closed
    }

    /// Registers a one-shot concurrent entry and returns its fresh token.
    /// The runtime spawns the timer task that later feeds the token back
    /// through the mailbox.
    pub fn run_later(&mut self, payload: u64) -> (token: usize)
        ensures
            !old(self)@.delays.dom().contains(token),
            final(self)@ == (ContextView {
                delays: old(self)@.delays.insert(token, Pending { exclusive: false, payload }),
                ..old(self)@
            }),
    {
        self.delay_queue.insert(Pending { exclusive: false, payload })
    }

    /// Registers a one-shot exclusive entry and returns its fresh token.
    pub fn run_wait_later(&mut self, payload: u64) -> (token: usize)
        ensures
            !old(self)@.delays.dom().contains(token),
            final(self)@ == (ContextView {
                delays: old(self)@.delays.insert(token, Pending { exclusive: true, payload }),
                ..old(self)@
            }),
    {
        self.delay_queue.insert(Pending { exclusive: true, payload })
    }

    /// Registers a recurring concurrent entry and returns its fresh token.
    /// The entry is cloned on every fire and stays until cancelled.
    pub fn run_interval(&mut self, payload: u64) -> (token: usize)
        ensures
            !old(self)@.intervals.dom().contains(token),
            final(self)@ == (ContextView {
                intervals: old(self)@.intervals.insert(token, Pending { exclusive: false, payload }),
                ..old(self)@
            }),
    {
        self.interval_queue.insert(Pending { exclusive: false, payload })
    }

    /// Registers a recurring exclusive entry and returns its fresh token.
    pub fn run_wait_interval(&mut self, payload: u64) -> (token: usize)
        ensures
            !old(self)@.intervals.dom().contains(token),
            final(self)@ == (ContextView {
                intervals: old(self)@.intervals.insert(token, Pending { exclusive: true, payload }),
                ..old(self)@
            }),
    {
        self.interval_queue.insert(Pending { exclusive: true, payload })
    }

    /// Consumes the delay entry under a fired token. Absence (already
    /// fired or already cancelled) is a silent no-op.
    pub fn resolve_delay(&mut self, token: usize) -> (entry: Option<Pending>)
        ensures
            final(self)@ == (ContextView { delays: old(self)@.delays.remove(token), ..old(self)@ }),
            entry == (if old(self)@.delays.dom().contains(token) {
                Some(old(self)@.delays[token])
            } else {
                None::<Pending>
            }),
    {
        self.delay_queue.remove(token)
    }

    /// Clones the interval entry under a fired token without consuming it,
    /// so the same token keeps firing until cancelled. Absence is a silent
    /// no-op.
    pub fn clone_interval(&self, token: usize) -> (entry: Option<Pending>)
        ensures
            entry == (if self@.intervals.dom().contains(token) {
                Some(self@.intervals[token])
            } else {
                None::<Pending>
            }),
    {
        self.interval_queue.get_and_clone(token)
    }

    /// Removes a delay entry if it is still present; cancelling one that
    /// already fired or was already cancelled changes nothing.
    pub fn handle_delay_cancel(&mut self, token: usize)
        ensures
            final(self)@ == (ContextView { delays: old(self)@.delays.remove(token), ..old(self)@ }),
    {
        if self.delay_queue.contains(token) {
            let _ = self.delay_queue.remove(token);
        } else {
            proof {
                assert(old(self)@.delays.remove(token) =~= old(self)@.delays);
            }
        }
    }

    /// Removes an interval entry if it is still present; cancelling one
    /// that was already cancelled changes nothing.
    pub fn handle_interval_cancel(&mut self, token: usize)
        ensures
            final(self)@ == (ContextView { intervals: old(self)@.intervals.remove(token), ..old(self)@ }),
    {
        if self.interval_queue.contains(token) {
            let _ = self.interval_queue.remove(token);
        } else {
            proof {
                assert(old(self)@.intervals.remove(token) =~= old(self)@.intervals);
            }
        }
    }
}

} // verus!
