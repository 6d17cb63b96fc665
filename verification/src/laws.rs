use vstd::prelude::*;
use crate::driver::{DriverView, step};
use crate::message::ActorMessage;
use crate::tasks::{spec_delay_step, spec_interval_step, spec_stream_step, StreamEvent, TaskState, TimerEvent};

verus! {

/// The driver contents after a whole sequence of concurrent messages is
/// handled, one step per payload.
pub open spec fn after_concurrent(pre: DriverView, payloads: Seq<u64>) -> DriverView
    decreases payloads.len(),
{
    if payloads.len() == 0 {
        pre
    } else {
        after_concurrent(step(pre, ActorMessage::Ref(payloads[0])).post, payloads.drop_first())
    }
}

/// Law: handling a concurrent message starts nothing eagerly: no batch
/// runs, no exclusive handler runs, the loop goes on.
pub proof fn lemma_concurrent_never_runs_eagerly(pre: DriverView, payload: u64)
    ensures
        step(pre, ActorMessage::Ref(payload)).exclusive is None,
        step(pre, ActorMessage::Ref(payload)).batch == Seq::<u64>::empty(),
        !step(pre, ActorMessage::Ref(payload)).force_stop,
        step(pre, ActorMessage::Ref(payload)).post.cache_ref == pre.cache_ref.push(payload),
{
}

/// Law: a sequence of concurrent-only messages dispatches no exclusive
/// handler and loses nothing: afterwards the cache holds every earlier
/// entry followed by all the new payloads in order, so the next flush
/// runs all of them; the queues, the lifecycle state and the exclusive
/// slot are untouched.
pub proof fn lemma_concurrent_only_all_cached(pre: DriverView, payloads: Seq<u64>)
    ensures
        after_concurrent(pre, payloads).cache_ref =~= pre.cache_ref + payloads,
        after_concurrent(pre, payloads).ctx == pre.ctx,
        after_concurrent(pre, payloads).cache_mut == pre.cache_mut,
        after_concurrent(pre, payloads).has_notify == pre.has_notify,
    decreases payloads.len(),
{
    if payloads.len() == 0 {
        assert(pre.cache_ref + payloads =~= pre.cache_ref);
    } else {
        let mid = step(pre, ActorMessage::Ref(payloads[0])).post;
        lemma_concurrent_only_all_cached(mid, payloads.drop_first());
        assert(mid.cache_ref + payloads.drop_first() =~= pre.cache_ref + payloads);
    }
}

/// Law: whenever a step dispatches an exclusive handler, the batch that
/// must run to full completion before that handler begins is exactly the
/// whole concurrent cache: every concurrent message enqueued strictly
/// before the dispatch point completes before the exclusive handler runs.
pub proof fn lemma_exclusive_flushes_prior(pre: DriverView, msg: ActorMessage)
    ensures
        step(pre, msg).exclusive is Some ==> step(pre, msg).batch == pre.cache_ref,
{
}

/// Law: the lifecycle state only moves forward: no message ever changes
/// it except to `StopGraceful`, so a stopping context never returns to
/// `Running`.
pub proof fn lemma_state_never_reverts(pre: DriverView, msg: ActorMessage)
    ensures
        step(pre, msg).post.ctx.state == pre.ctx.state
            || step(pre, msg).post.ctx.state is StopGraceful,
        !(pre.ctx.state is Running) ==> !(step(pre, msg).post.ctx.state is Running),
{
}

/// Law: cancelling a delay entry prevents its dispatch: once the cancel
/// token is handled, the fired token resolves to nothing — the driver
/// contents do not change and no handler runs. Cancelling an entry that
/// already fired or was already cancelled changes nothing at all:
/// cancellation races are harmless no-ops.
pub proof fn lemma_delay_cancel_prevents_dispatch(pre: DriverView, token: usize)
    ensures
        ({
            let cancelled = step(pre, ActorMessage::DelayTokenCancel(token)).post;
            let fired = step(cancelled, ActorMessage::DelayToken(token));
            fired.post == cancelled
                && fired.exclusive is None
                && fired.batch == Seq::<u64>::empty()
        }),
        !pre.ctx.delays.dom().contains(token)
            ==> step(pre, ActorMessage::DelayTokenCancel(token)).post == pre,
{
    let cancelled = step(pre, ActorMessage::DelayTokenCancel(token)).post;
    assert(!cancelled.ctx.delays.dom().contains(token));
    if !pre.ctx.delays.dom().contains(token) {
        assert(pre.ctx.delays.remove(token) =~= pre.ctx.delays);
    }
}

/// Law: a delay entry is consumed when it fires: dispatching the same
/// token a second time finds nothing and changes nothing.
pub proof fn lemma_delay_fires_at_most_once(pre: DriverView, token: usize)
    ensures
        ({
            let once = step(pre, ActorMessage::DelayToken(token)).post;
            let again = step(once, ActorMessage::DelayToken(token));
            again.post == once
                && again.exclusive is None
                && again.batch == Seq::<u64>::empty()
        }),
{
    let once = step(pre, ActorMessage::DelayToken(token)).post;
    assert(!once.ctx.delays.dom().contains(token));
}

/// Law: an interval entry is not consumed when it fires: dispatching its
/// token leaves the entry in place, so the same token keeps dispatching
/// until cancelled; once the cancel token is handled, further fires find
/// nothing and change nothing.
pub proof fn lemma_interval_retained_until_cancelled(pre: DriverView, token: usize)
    ensures
        step(pre, ActorMessage::IntervalToken(token)).post.ctx.intervals == pre.ctx.intervals,
        ({
            let cancelled = step(pre, ActorMessage::IntervalTokenCancel(token)).post;
            let fired = step(cancelled, ActorMessage::IntervalToken(token));
            fired.post == cancelled
                && fired.exclusive is None
                && fired.batch == Seq::<u64>::empty()
        }),
{
    let cancelled = step(pre, ActorMessage::IntervalTokenCancel(token)).post;
    assert(!cancelled.ctx.intervals.dom().contains(token));
}

/// Law: stopping does not abort draining: a driver whose context has been
/// stopped (mailbox closed, state `StopGraceful`) still dispatches every
/// remaining buffered or resolvable scheduled message exactly as a running
/// one would — the same batch and the same exclusive handler.
pub proof fn lemma_stopping_still_drains(pre: DriverView, msg: ActorMessage)
    ensures
        ({
            let stopping = DriverView { ctx: crate::context::stopped(pre.ctx), ..pre };
            step(stopping, msg).batch == step(pre, msg).batch
                && step(stopping, msg).exclusive == step(pre, msg).exclusive
        }),
{
}

/// Law: panic recovery loses no unfinished work: every cached concurrent
/// entry whose handler had not yet completed survives the pruning that
/// precedes the respawn, so it is run by the restarted loop.
pub proof fn lemma_pruned_keeps_unfinished(cache: Seq<u64>, finished: Seq<bool>, i: int)
    requires
        cache.len() == finished.len(),
        0 <= i < cache.len(),
        !finished[i],
    ensures
        crate::driver::pruned(cache, finished).contains(cache[i]),
    decreases cache.len(),
{
    let kept = crate::driver::pruned(cache, finished);
    if i == cache.len() - 1 {
        assert(kept[kept.len() - 1] == cache[i]);
    } else {
        lemma_pruned_keeps_unfinished(cache.drop_last(), finished.drop_last(), i);
        let rest = crate::driver::pruned(cache.drop_last(), finished.drop_last());
        let j = choose|j: int| 0 <= j < rest.len() && rest[j] == cache.drop_last()[i];
        assert(kept[j] == cache[i]);
    }
}

/// Law: panic recovery invents no work: every entry of the pruned cache
/// stands at some unfinished position of the cache it was pruned from.
pub proof fn lemma_pruned_invents_nothing(cache: Seq<u64>, finished: Seq<bool>, j: int)
    requires
        cache.len() == finished.len(),
        0 <= j < crate::driver::pruned(cache, finished).len(),
    ensures
        exists|i: int|
            0 <= i < cache.len() && !finished[i] && cache[i] == crate::driver::pruned(
                cache,
                finished,
            )[j],
    decreases cache.len(),
{
    let kept = crate::driver::pruned(cache, finished);
    let rest = crate::driver::pruned(cache.drop_last(), finished.drop_last());
    if !finished[cache.len() - 1] && j == kept.len() - 1 {
        assert(cache[cache.len() - 1] == kept[j]);
    } else {
        lemma_pruned_invents_nothing(cache.drop_last(), finished.drop_last(), j);
        let i = choose|i: int|
            0 <= i < cache.drop_last().len() && !finished.drop_last()[i]
                && cache.drop_last()[i] == rest[j];
        assert(cache[i] == kept[j]);
    }
}

/// The final control state and the messages a delay task sends over a
/// sequence of observed events.
pub open spec fn delay_run(state: TaskState, token: usize, events: Seq<TimerEvent>) -> (TaskState, Seq<ActorMessage>)
    decreases events.len(),
{
    if events.len() == 0 {
        (state, Seq::empty())
    } else {
        let first = spec_delay_step(state, token, events[0]);
        let sent = match first.send {
            Some(m) => seq![m],
            None => Seq::<ActorMessage>::empty(),
        };
        let rest = delay_run(first.next, token, events.drop_first());
        (rest.0, sent + rest.1)
    }
}

/// The final control state and the messages an interval task sends over a
/// sequence of observed events.
pub open spec fn interval_run(state: TaskState, token: usize, events: Seq<TimerEvent>) -> (TaskState, Seq<ActorMessage>)
    decreases events.len(),
{
    if events.len() == 0 {
        (state, Seq::empty())
    } else {
        let first = spec_interval_step(state, token, events[0]);
        let sent = match first.send {
            Some(m) => seq![m],
            None => Seq::<ActorMessage>::empty(),
        };
        let rest = interval_run(first.next, token, events.drop_first());
        (rest.0, sent + rest.1)
    }
}

/// The final control state and the messages a stream bridge sends over a
/// sequence of observed events.
pub open spec fn stream_run(state: TaskState, exclusive: bool, events: Seq<StreamEvent>) -> (TaskState, Seq<ActorMessage>)
    decreases events.len(),
{
    if events.len() == 0 {
        (state, Seq::empty())
    } else {
        let first = spec_stream_step(state, exclusive, events[0]);
        let sent = match first.send {
            Some(m) => seq![m],
            None => Seq::<ActorMessage>::empty(),
        };
        let rest = stream_run(first.next, exclusive, events.drop_first());
        (rest.0, sent + rest.1)
    }
}

/// Law: an exited delay task sends nothing more, whatever else happens.
pub proof fn lemma_delay_done_sends_nothing(token: usize, events: Seq<TimerEvent>)
    ensures
        delay_run(TaskState::Done, token, events).0 == TaskState::Done,
        delay_run(TaskState::Done, token, events).1 == Seq::<ActorMessage>::empty(),
    decreases events.len(),
{
    if events.len() > 0 {
        lemma_delay_done_sends_nothing(token, events.drop_first());
        assert(Seq::<ActorMessage>::empty() + Seq::<ActorMessage>::empty()
            =~= Seq::<ActorMessage>::empty());
    }
}

/// Law: an exited interval task sends nothing more, whatever else happens.
pub proof fn lemma_interval_done_sends_nothing(token: usize, events: Seq<TimerEvent>)
    ensures
        interval_run(TaskState::Done, token, events).0 == TaskState::Done,
        interval_run(TaskState::Done, token, events).1 == Seq::<ActorMessage>::empty(),
    decreases events.len(),
{
    if events.len() > 0 {
        lemma_interval_done_sends_nothing(token, events.drop_first());
        assert(Seq::<ActorMessage>::empty() + Seq::<ActorMessage>::empty()
            =~= Seq::<ActorMessage>::empty());
    }
}

/// Law: invoking the cancellation handle of a waiting delay task makes it
/// send exactly one delay-cancel token and exit; the delay token itself —
/// the resolved message — is never sent, whatever happens afterwards.
pub proof fn lemma_delay_cancelled_never_fires(token: usize, events: Seq<TimerEvent>)
    ensures
        ({
            let run = delay_run(
                TaskState::Armed,
                token,
                seq![TimerEvent::CancelRequested] + events,
            );
            run.0 == TaskState::Done
                && run.1 =~= seq![ActorMessage::DelayTokenCancel(token)]
        }),
{
    let evs = seq![TimerEvent::CancelRequested] + events;
    assert(evs[0] == TimerEvent::CancelRequested);
    assert(evs.drop_first() =~= events);
    lemma_delay_done_sends_nothing(token, events);
}

/// Law: dropping the cancellation handle of a waiting delay task without
/// invoking it lets the delay run to natural completion: the timer fires,
/// exactly one delay token is sent, and the task exits.
pub proof fn lemma_delay_dropped_fires_once(token: usize, events: Seq<TimerEvent>)
    ensures
        ({
            let run = delay_run(
                TaskState::Armed,
                token,
                seq![TimerEvent::CancelDropped, TimerEvent::Fired] + events,
            );
            run.0 == TaskState::Done
                && run.1 =~= seq![ActorMessage::DelayToken(token)]
        }),
{
    let evs = seq![TimerEvent::CancelDropped, TimerEvent::Fired] + events;
    let evs1 = evs.drop_first();
    let evs2 = evs1.drop_first();
    assert(evs[0] == TimerEvent::CancelDropped);
    assert(evs1[0] == TimerEvent::Fired);
    assert(evs2 =~= events);
    lemma_delay_done_sends_nothing(token, events);
    let after_fire = delay_run(TaskState::Done, token, evs2);
    assert(delay_run(TaskState::FreeRunning, token, evs1).1
        =~= seq![ActorMessage::DelayToken(token)] + after_fire.1);
    assert(delay_run(TaskState::Armed, token, evs).1
        =~= delay_run(TaskState::FreeRunning, token, evs1).1);
    assert(seq![ActorMessage::DelayToken(token)] + Seq::<ActorMessage>::empty()
        =~= seq![ActorMessage::DelayToken(token)]);
}

/// Law: invoking the cancellation handle of an armed interval task makes
/// it send exactly one final interval-cancel token and exit: no further
/// fire is ever sent.
pub proof fn lemma_interval_cancel_stops_fires(token: usize, events: Seq<TimerEvent>)
    ensures
        ({
            let run = interval_run(
                TaskState::Armed,
                token,
                seq![TimerEvent::CancelRequested] + events,
            );
            run.0 == TaskState::Done
                && run.1 =~= seq![ActorMessage::IntervalTokenCancel(token)]
        }),
{
    let evs = seq![TimerEvent::CancelRequested] + events;
    assert(evs[0] == TimerEvent::CancelRequested);
    assert(evs.drop_first() =~= events);
    lemma_interval_done_sends_nothing(token, events);
}

/// Law: an interval task fires on every tick for as long as it is not
/// cancelled: over any run of timer fires it sends one interval token per
/// tick and stays armed. With the handle dropped it behaves the same in
/// its free-running state, indefinitely: dropping the handle lets the
/// schedule run to natural completion, which for an interval never comes.
pub proof fn lemma_interval_fires_every_tick(
    state: TaskState,
    token: usize,
    events: Seq<TimerEvent>,
)
    requires
        !(state is Done),
        forall|i: int| 0 <= i < events.len() ==> events[i] is Fired,
    ensures
        interval_run(state, token, events).0 == state,
        interval_run(state, token, events).1.len() == events.len(),
        forall|i: int| 0 <= i < events.len()
            ==> interval_run(state, token, events).1[i] == ActorMessage::IntervalToken(token),
    decreases events.len(),
{
    if events.len() > 0 {
        assert(events[0] is Fired);
        lemma_interval_fires_every_tick(state, token, events.drop_first());
        let rest = interval_run(state, token, events.drop_first());
        assert(interval_run(state, token, events).1
            =~= seq![ActorMessage::IntervalToken(token)] + rest.1);
    }
}

/// Law: a stream bridge whose handle was dropped degrades to plain
/// forwarding: every produced item is sent, in order, as a message of the
/// bridge's kind, and the bridge exits only when the stream ends.
pub proof fn lemma_stream_forwards_to_exhaustion(
    state: TaskState,
    exclusive: bool,
    events: Seq<StreamEvent>,
)
    requires
        !(state is Done),
        forall|i: int| 0 <= i < events.len() ==> events[i] is Item,
    ensures
        stream_run(state, exclusive, events).0 == state,
        stream_run(state, exclusive, events).1.len() == events.len(),
        forall|i: int| 0 <= i < events.len()
            ==> stream_run(state, exclusive, events).1[i] == (if exclusive {
                ActorMessage::Mut(events[i]->Item_0)
            } else {
                ActorMessage::Ref(events[i]->Item_0)
            }),
    decreases events.len(),
{
    if events.len() > 0 {
        assert(events[0] is Item);
        lemma_stream_forwards_to_exhaustion(state, exclusive, events.drop_first());
        let rest = stream_run(state, exclusive, events.drop_first());
        let first = spec_stream_step(state, exclusive, events[0]);
        let sent = match first.send {
            Some(m) => seq![m],
            None => Seq::<ActorMessage>::empty(),
        };
        assert(stream_run(state, exclusive, events).1 =~= sent + rest.1);
    }
}

} // verus!
