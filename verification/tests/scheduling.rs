use actor_core::context::Context;
use actor_core::driver::Driver;
use actor_core::handle::ContextJoinHandle;
use actor_core::message::{ActorMessage, Pending};
use actor_core::registry::Registry;
use actor_core::tasks::{delay_step, interval_step, stream_step, StreamEvent, TaskState, TimerEvent};

#[test]
fn registry_round_trip() {
    let mut r = Registry::new();
    let entry = Pending { exclusive: true, payload: 7 };
    let token = r.insert(entry);
    assert!(r.contains(token));
    assert_eq!(r.get_and_clone(token), Some(entry));
    assert!(r.contains(token));
    assert_eq!(r.remove(token), Some(entry));
    assert!(!r.contains(token));
    assert_eq!(r.remove(token), None);
    assert_eq!(r.get_and_clone(token), None);
}

#[test]
fn registry_removal_does_not_renumber_live_tokens() {
    let mut r = Registry::new();
    let a = r.insert(Pending { exclusive: false, payload: 1 });
    let b = r.insert(Pending { exclusive: false, payload: 2 });
    let c = r.insert(Pending { exclusive: false, payload: 3 });
    assert_eq!(r.remove(b), Some(Pending { exclusive: false, payload: 2 }));
    assert_eq!(r.get_and_clone(a), Some(Pending { exclusive: false, payload: 1 }));
    assert_eq!(r.get_and_clone(c), Some(Pending { exclusive: false, payload: 3 }));
}

#[test]
fn cancel_handle_signals_once() {
    let (tx, mut rx) = tokio::sync::oneshot::channel::<()>();
    let handle = ContextJoinHandle::new(tx);
    handle.cancel();
    assert!(rx.try_recv().is_ok());
}

#[test]
fn dropped_handle_signals_nothing() {
    let (tx, mut rx) = tokio::sync::oneshot::channel::<()>();
    let handle = ContextJoinHandle::new(tx);
    drop(handle);
    assert!(rx.try_recv().is_err());
}

#[test]
fn delay_cancel_prevents_dispatch() {
    let mut ctx = Context::new();
    ctx.mark_running();
    let token = ctx.run_wait_later(7);
    let mut d = Driver::new(ctx);
    d.handle_message(ActorMessage::DelayTokenCancel(token));
    let fired = d.handle_message(ActorMessage::DelayToken(token));
    assert!(fired.batch.is_empty());
    assert!(fired.exclusive.is_none());
    assert_eq!(d.concurrent_cached(), 0);
    assert_eq!(d.exclusive_cached(), None);
}

#[test]
fn uncancelled_delay_fires_exactly_once() {
    let mut ctx = Context::new();
    ctx.mark_running();
    let token = ctx.run_wait_later(7);
    let mut d = Driver::new(ctx);
    let fired = d.handle_message(ActorMessage::DelayToken(token));
    assert_eq!(fired.exclusive, Some(7));
    assert_eq!(d.take_exclusive(), Some(7));
    let again = d.handle_message(ActorMessage::DelayToken(token));
    assert!(again.exclusive.is_none());
    assert_eq!(d.concurrent_cached(), 0);
}

#[test]
fn concurrent_delay_entry_joins_cache() {
    let mut ctx = Context::new();
    ctx.mark_running();
    let token = ctx.run_later(11);
    let mut d = Driver::new(ctx);
    let fired = d.handle_message(ActorMessage::DelayToken(token));
    assert!(fired.exclusive.is_none());
    assert_eq!(d.begin_flush(), vec![11]);
}

#[test]
fn interval_fires_until_cancelled() {
    let mut ctx = Context::new();
    ctx.mark_running();
    let token = ctx.run_interval(3);
    let mut d = Driver::new(ctx);
    d.handle_message(ActorMessage::IntervalToken(token));
    d.handle_message(ActorMessage::IntervalToken(token));
    assert_eq!(d.begin_flush(), vec![3, 3]);
    d.handle_message(ActorMessage::IntervalTokenCancel(token));
    d.handle_message(ActorMessage::IntervalToken(token));
    assert_eq!(d.begin_flush(), vec![3, 3]);
    d.handle_message(ActorMessage::IntervalTokenCancel(token));
    assert_eq!(d.begin_flush(), vec![3, 3]);
}

#[test]
fn exclusive_interval_dispatches_alone() {
    let mut ctx = Context::new();
    ctx.mark_running();
    let token = ctx.run_wait_interval(4);
    let mut d = Driver::new(ctx);
    d.handle_message(ActorMessage::Ref(1));
    let fired = d.handle_message(ActorMessage::IntervalToken(token));
    assert_eq!(fired.batch, vec![1]);
    assert_eq!(fired.exclusive, Some(4));
}

#[test]
fn delay_task_cancel_sends_cancel_token() {
    let step = delay_step(TaskState::Armed, 5, TimerEvent::CancelRequested);
    assert_eq!(step.next, TaskState::Done);
    assert!(matches!(step.send, Some(ActorMessage::DelayTokenCancel(5))));
    let after = delay_step(step.next, 5, TimerEvent::Fired);
    assert!(after.send.is_none());
    assert_eq!(after.next, TaskState::Done);
}

#[test]
fn delay_task_dropped_handle_fires_once() {
    let step = delay_step(TaskState::Armed, 5, TimerEvent::CancelDropped);
    assert_eq!(step.next, TaskState::FreeRunning);
    assert!(step.send.is_none());
    let fired = delay_step(step.next, 5, TimerEvent::Fired);
    assert_eq!(fired.next, TaskState::Done);
    assert!(matches!(fired.send, Some(ActorMessage::DelayToken(5))));
}

#[test]
fn interval_task_rearms_after_fire() {
    let fired = interval_step(TaskState::Armed, 9, TimerEvent::Fired);
    assert_eq!(fired.next, TaskState::Armed);
    assert!(matches!(fired.send, Some(ActorMessage::IntervalToken(9))));
    let cancelled = interval_step(TaskState::Armed, 9, TimerEvent::CancelRequested);
    assert_eq!(cancelled.next, TaskState::Done);
    assert!(matches!(cancelled.send, Some(ActorMessage::IntervalTokenCancel(9))));
}

#[test]
fn interval_task_free_runs_after_handle_dropped() {
    let dropped = interval_step(TaskState::Armed, 9, TimerEvent::CancelDropped);
    assert_eq!(dropped.next, TaskState::FreeRunning);
    assert!(dropped.send.is_none());
    let fire1 = interval_step(dropped.next, 9, TimerEvent::Fired);
    assert_eq!(fire1.next, TaskState::FreeRunning);
    assert!(matches!(fire1.send, Some(ActorMessage::IntervalToken(9))));
    let fire2 = interval_step(fire1.next, 9, TimerEvent::Fired);
    assert_eq!(fire2.next, TaskState::FreeRunning);
    assert!(matches!(fire2.send, Some(ActorMessage::IntervalToken(9))));
}

#[test]
fn interval_task_exits_when_mailbox_gone() {
    let gone = interval_step(TaskState::FreeRunning, 9, TimerEvent::SendFailed);
    assert_eq!(gone.next, TaskState::Done);
    assert!(gone.send.is_none());
}

#[test]
fn stream_bridge_forwards_three_items() {
    let mut state = TaskState::Armed;
    for p in [1u64, 2, 3] {
        let step = stream_step(state, false, StreamEvent::Item(p));
        state = step.next;
        assert_eq!(state, TaskState::Armed);
        match step.send {
            Some(ActorMessage::Ref(sent)) => assert_eq!(sent, p),
            _ => panic!("a stream item must be forwarded as a concurrent message"),
        }
    }
    let end = stream_step(state, false, StreamEvent::Exhausted);
    assert_eq!(end.next, TaskState::Done);
    assert!(end.send.is_none());
}

#[test]
fn wait_stream_bridge_forwards_exclusively() {
    let step = stream_step(TaskState::FreeRunning, true, StreamEvent::Item(8));
    assert_eq!(step.next, TaskState::FreeRunning);
    assert!(matches!(step.send, Some(ActorMessage::Mut(8))));
}

#[test]
fn stream_bridge_degrades_to_plain_forwarding_when_handle_dropped() {
    let dropped = stream_step(TaskState::Armed, false, StreamEvent::CancelDropped);
    assert_eq!(dropped.next, TaskState::FreeRunning);
    assert!(dropped.send.is_none());
    let item = stream_step(dropped.next, false, StreamEvent::Item(6));
    assert_eq!(item.next, TaskState::FreeRunning);
    assert!(matches!(item.send, Some(ActorMessage::Ref(6))));
    let cancel_late = stream_step(item.next, false, StreamEvent::CancelRequested);
    assert_eq!(cancel_late.next, TaskState::FreeRunning);
    assert!(cancel_late.send.is_none());
}

#[test]
fn stream_bridge_cancel_exits_silently() {
    let step = stream_step(TaskState::Armed, false, StreamEvent::CancelRequested);
    assert_eq!(step.next, TaskState::Done);
    assert!(step.send.is_none());
}
