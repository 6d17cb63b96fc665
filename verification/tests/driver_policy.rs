use actor_core::context::Context;
use actor_core::driver::Driver;
use actor_core::message::{ActorMessage, ActorState};

fn running_driver() -> Driver {
    let mut ctx = Context::new();
    ctx.mark_running();
    Driver::new(ctx)
}

#[test]
fn concurrent_messages_cache_until_flush() {
    let mut d = running_driver();
    for p in 1..=5u64 {
        let dispatch = d.handle_message(ActorMessage::Ref(p));
        assert!(dispatch.batch.is_empty());
        assert!(dispatch.exclusive.is_none());
        assert!(!dispatch.force_stop);
    }
    assert_eq!(d.concurrent_cached(), 5);
    let batch = d.begin_flush();
    assert_eq!(batch, vec![1, 2, 3, 4, 5]);
    d.finish_flush();
    assert_eq!(d.concurrent_cached(), 0);
}

#[test]
fn exclusive_flushes_prior_concurrents() {
    let mut d = running_driver();
    for p in 1..=5u64 {
        d.handle_message(ActorMessage::Ref(p));
    }
    let dispatch = d.handle_message(ActorMessage::Mut(99));
    assert_eq!(dispatch.batch, vec![1, 2, 3, 4, 5]);
    assert_eq!(dispatch.exclusive, Some(99));
    assert!(!dispatch.force_stop);
    d.finish_flush();
    assert_eq!(d.take_exclusive(), Some(99));
    assert_eq!(d.take_exclusive(), None);
}

#[test]
fn concurrents_arriving_after_exclusive_wait_for_next_flush() {
    let mut d = running_driver();
    d.handle_message(ActorMessage::Ref(1));
    let dispatch = d.handle_message(ActorMessage::Mut(2));
    assert_eq!(dispatch.batch, vec![1]);
    d.finish_flush();
    assert_eq!(d.take_exclusive(), Some(2));
    let later = d.handle_message(ActorMessage::Ref(3));
    assert!(later.batch.is_empty());
    assert!(later.exclusive.is_none());
    assert_eq!(d.begin_flush(), vec![3]);
}

#[test]
fn lifecycle_request_records_ack_and_stops() {
    let mut d = running_driver();
    let (tx, mut rx) = tokio::sync::oneshot::channel::<()>();
    let dispatch = d.handle_message(ActorMessage::ActorState(ActorState::StopGraceful, Some(tx)));
    assert!(!dispatch.force_stop);
    assert!(d.has_notify());
    assert!(matches!(d.context().state(), ActorState::StopGraceful));
    assert!(d.context().is_mailbox_closed());
    d.signal_stop();
    assert!(!d.has_notify());
    assert!(rx.try_recv().is_ok());
    d.signal_stop();
    assert!(!d.has_notify());
}

#[test]
fn force_stop_request_terminates_loop() {
    let mut d = running_driver();
    let dispatch = d.handle_message(ActorMessage::ActorState(ActorState::Stop, None));
    assert!(dispatch.force_stop);
    assert!(matches!(d.context().state(), ActorState::StopGraceful));
}

#[test]
fn running_request_does_not_stop() {
    let mut d = running_driver();
    let dispatch = d.handle_message(ActorMessage::ActorState(ActorState::Running, None));
    assert!(!dispatch.force_stop);
    assert!(matches!(d.context().state(), ActorState::Running));
    assert!(!d.context().is_mailbox_closed());
}

#[test]
fn panic_recovery_keeps_unfinished_work() {
    let mut d = running_driver();
    for p in [10u64, 20, 30] {
        d.handle_message(ActorMessage::Ref(p));
    }
    assert!(d.should_recover());
    d.prune_finished(&vec![true, false, true]);
    assert_eq!(d.concurrent_cached(), 1);
    assert_eq!(d.begin_flush(), vec![20]);
    let dispatch = d.handle_message(ActorMessage::Ref(40));
    assert!(dispatch.exclusive.is_none());
    assert_eq!(d.begin_flush(), vec![20, 40]);
}

#[test]
fn no_recovery_outside_running_state() {
    let mut ctx = Context::new();
    ctx.mark_running();
    ctx.stop();
    let d = Driver::new(ctx);
    assert!(!d.should_recover());
}

#[test]
fn state_moves_forward_only() {
    let mut ctx = Context::new();
    assert!(matches!(ctx.state(), ActorState::Stop));
    ctx.mark_running();
    assert!(matches!(ctx.state(), ActorState::Running));
    ctx.stop();
    assert!(matches!(ctx.state(), ActorState::StopGraceful));
    assert!(ctx.is_mailbox_closed());
    ctx.mark_running();
    assert!(matches!(ctx.state(), ActorState::StopGraceful));
}
