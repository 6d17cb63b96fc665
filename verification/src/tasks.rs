use vstd::prelude::*;
use crate::message::ActorMessage;

verus! {

/// The control state of a background scheduling task (a delay or interval
/// timer, or a stream bridge).
#[derive(Clone, Copy, PartialEq, Eq, Structural, Debug)]
pub enum TaskState {
    /// The task still listens to its cancellation handle while waiting.
    Armed,
    /// The handle was dropped without being invoked: the task no longer
    /// listens to it and runs the activity to natural completion.
    FreeRunning,
    /// The task has exited.
    Done,
}

/// What a timer task observed while waiting: one arm of its race between
/// the cancellation channel and the timer.
#[derive(Clone, Copy, PartialEq, Eq, Structural, Debug)]
pub enum TimerEvent {
    /// The cancellation handle was invoked.
    CancelRequested,
    /// The cancellation handle was dropped without being invoked.
    CancelDropped,
    /// The timer elapsed.
    Fired,
    /// A send into the mailbox failed: the actor is gone.
    SendFailed,
}

/// What a stream bridge observed: one arm of its race between the
/// cancellation channel and the next stream item.
#[derive(Clone, Copy, PartialEq, Eq, Structural)]
pub enum StreamEvent {
    /// The cancellation handle was invoked.
    CancelRequested,
    /// The cancellation handle was dropped without being invoked.
    CancelDropped,
    /// The stream produced an item, held by the runtime under this payload.
    Item(u64),
    /// The stream ended.
    Exhausted,
    /// A send into the mailbox failed: the actor is gone.
    SendFailed,
}

/// A task's reaction to one event: its next control state, and the message
/// it must send into the mailbox, if any.
pub struct TaskStep {
    pub next: TaskState,
    pub send: Option<ActorMessage>,
}

/// The decision logic of a one-shot delay task. On cancellation it sends
/// the cancel token and exits; when the handle is dropped it keeps waiting
/// without listening further (the entry fires as if never cancelled); when
/// the timer fires it sends the delay token and exits.
pub open spec fn spec_delay_step(state: TaskState, token: usize, event: TimerEvent) -> TaskStep {
    match state {
        TaskState::Done => TaskStep { next: TaskState::Done, send: None },
        _ => match event {
            TimerEvent::CancelRequested => {
                if state is Armed {
                    TaskStep {
                        next: TaskState::Done,
                        send: Some(ActorMessage::DelayTokenCancel(token)),
                    }
                } else {
                    TaskStep { next: state, send: None }
                }
            },
            TimerEvent::CancelDropped => {
                TaskStep {
                    next: if state is Armed { TaskState::FreeRunning } else { state },
                    send: None,
                }
            },
            TimerEvent::Fired => {
                TaskStep { next: TaskState::Done, send: Some(ActorMessage::DelayToken(token)) }
            },
            TimerEvent::SendFailed => TaskStep { next: TaskState::Done, send: None },
        },
    }
}

/// The decision logic of a recurring interval task. A fire sends the
/// interval token and re-arms the timer; cancellation sends one final
/// cancel token and exits; a dropped handle leaves the task free-running,
/// firing indefinitely, since no live sender can reach it any more; it
/// exits when the mailbox is gone.
pub open spec fn spec_interval_step(state: TaskState, token: usize, event: TimerEvent) -> TaskStep {
    match state {
        TaskState::Done => TaskStep { next: TaskState::Done, send: None },
        _ => match event {
            TimerEvent::CancelRequested => {
                if state is Armed {
                    TaskStep {
                        next: TaskState::Done,
                        send: Some(ActorMessage::IntervalTokenCancel(token)),
                    }
                } else {
                    TaskStep { next: state, send: None }
                }
            },
            TimerEvent::CancelDropped => {
                TaskStep {
                    next: if state is Armed { TaskState::FreeRunning } else { state },
                    send: None,
                }
            },
            TimerEvent::Fired => {
                TaskStep { next: state, send: Some(ActorMessage::IntervalToken(token)) }
            },
            TimerEvent::SendFailed => TaskStep { next: TaskState::Done, send: None },
        },
    }
}

/// The decision logic of a stream bridge. Each produced item is forwarded
/// as a concurrent (`Ref`) or exclusive (`Mut`) message; cancellation exits
/// silently; a dropped handle degrades the bridge to plain forwarding
/// until the stream ends or the mailbox is gone.
pub open spec fn spec_stream_step(state: TaskState, exclusive: bool, event: StreamEvent) -> TaskStep {
    match state {
        TaskState::Done => TaskStep { next: TaskState::Done, send: None },
        _ => match event {
            StreamEvent::CancelRequested => {
                TaskStep { next: if state is Armed { TaskState::Done } else { state }, send: None }
            },
            StreamEvent::CancelDropped => {
                TaskStep {
                    next: if state is Armed { TaskState::FreeRunning } else { state },
                    send: None,
                }
            },
            StreamEvent::Item(payload) => {
                TaskStep {
                    next: state,
                    send: Some(if exclusive {
                        ActorMessage::Mut(payload)
                    } else {
                        ActorMessage::Ref(payload)
                    }),
                }
            },
            StreamEvent::Exhausted => TaskStep { next: TaskState::Done, send: None },
            StreamEvent::SendFailed => TaskStep { next: TaskState::Done, send: None },
        },
    }
}

/// One step of a delay task, exactly as `spec_delay_step` says.
pub fn delay_step(state: TaskState, token: usize, event: TimerEvent) -> (r: TaskStep)
    ensures
        r.next == spec_delay_step(state, token, event).next,
        r.send == spec_delay_step(state, token, event).send,
{
    match state {
        TaskState::Done => TaskStep { next: TaskState::Done, send: None },
        _ => match event {
            TimerEvent::CancelRequested => {
                if state == TaskState::Armed {
                    TaskStep {
                        next: TaskState::Done,
                        send: Some(ActorMessage::DelayTokenCancel(token)),
                    }
                } else {
                    TaskStep { next: state, send: None }
                }
            },
            TimerEvent::CancelDropped => {
                TaskStep {
                    next: if state == TaskState::Armed { TaskState::FreeRunning } else { state },
                    send: None,
                }
            },
            TimerEvent::Fired => {
                TaskStep { next: TaskState::Done, send: Some(ActorMessage::DelayToken(token)) }
            },
            TimerEvent::SendFailed => TaskStep { next: TaskState::Done, send: None },
        },
    }
}

/// One step of an interval task, exactly as `spec_interval_step` says.
pub fn interval_step(state: TaskState, token: usize, event: TimerEvent) -> (r: TaskStep)
    ensures
        r.next == spec_interval_step(state, token, event).next,
        r.send == spec_interval_step(state, token, event).send,
{
    match state {
        TaskState::Done => TaskStep { next: TaskState::Done, send: None },
        _ => match event {
            TimerEvent::CancelRequested => {
                if state == TaskState::Armed {
                    TaskStep {
                        next: TaskState::Done,
                        send: Some(ActorMessage::IntervalTokenCancel(token)),
                    }
                } else {
                    TaskStep { next: state, send: None }
                }
            },
            TimerEvent::CancelDropped => {
                TaskStep {
                    next: if state == TaskState::Armed { TaskState::FreeRunning } else { state },
                    send: None,
                }
            },
            TimerEvent::Fired => {
                TaskStep { next: state, send: Some(ActorMessage::IntervalToken(token)) }
            },
            TimerEvent::SendFailed => TaskStep { next: TaskState::Done, send: None },
        },
    }
}

/// One step of a stream bridge, exactly as `spec_stream_step` says.
pub fn stream_step(state: TaskState, exclusive: bool, event: StreamEvent) -> (r: TaskStep)
    ensures
        r.next == spec_stream_step(state, exclusive, event).next,
        r.send == spec_stream_step(state, exclusive, event).send,
{
    match state {
        TaskState::Done => TaskStep { next: TaskState::Done, send: None },
        _ => match event {
            StreamEvent::CancelRequested => {
                TaskStep {
                    next: if state == TaskState::Armed { TaskState::Done } else { state },
                    send: None,
                }
            },
            StreamEvent::CancelDropped => {
                TaskStep {
                    next: if state == TaskState::Armed { TaskState::FreeRunning } else { state },
                    send: None,
                }
            },
            StreamEvent::Item(payload) => {
                TaskStep {
                    next: state,
                    send: Some(if exclusive {
                        ActorMessage::Mut(payload)
                    } else {
                        ActorMessage::Ref(payload)
                    }),
                }
            },
            StreamEvent::Exhausted => TaskStep { next: TaskState::Done, send: None },
            StreamEvent::SendFailed => TaskStep { next: TaskState::Done, send: None },
        },
    }
}

} // verus!
