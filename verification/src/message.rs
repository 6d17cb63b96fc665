use vstd::prelude::*;

verus! {

/// Lifecycle state of an actor's context.
///
/// The state only moves forward: `Stop` (not yet started) to `Running`,
/// then to `StopGraceful`; it never returns to `Running` once the context
/// is stopping.
#[derive(Clone, Copy, PartialEq, Eq, Structural, Debug)]
pub enum ActorState {
    /// The actor has not started yet, or was asked to stop at once.
    Stop,
    /// The actor was asked to stop after draining already-queued work.
    StopGraceful,
    /// The actor is processing messages.
    Running,
}

/// A stored pending message: one entry of a delay or interval queue.
///
/// The handler object itself is opaque to the core; `payload` identifies
/// it for the runtime that owns the actual handler. `exclusive` records
/// whether the handler needs sole access to the actor (a "Mut" message)
/// or only shared access (a "Ref" message).
#[derive(Clone, Copy, PartialEq, Eq, Structural, Debug)]
pub struct Pending {
    pub exclusive: bool,
    pub payload: u64,
}

/// One unit of work pulled from the mailbox by the driver loop.
pub enum ActorMessage {
    /// A concurrent message: its handler needs only shared access to the
    /// actor and may run alongside other concurrent handlers.
    Ref(u64),
    /// An exclusive message: its handler needs sole access to the actor.
    Mut(u64),
    /// A one-shot delay entry fired: resolve against the delay queue,
    /// consuming the entry.
    DelayToken(usize),
    /// Cancel a one-shot delay entry if it is still present.
    DelayTokenCancel(usize),
    /// A recurring entry fired: resolve against the interval queue by
    /// cloning the stored template; the entry stays until cancelled.
    IntervalToken(usize),
    /// Cancel a recurring entry if it is still present.
    IntervalTokenCancel(usize),
    /// A lifecycle-transition request: the target state, and an optional
    /// one-shot acknowledgement channel signalled when the actor has
    /// fully stopped.
    ActorState(ActorState, Option<tokio::sync::oneshot::Sender<()>>),
}

} // verus!
