use vstd::prelude::*;
use crate::context::{Context, ContextView, stopped};
use crate::message::{ActorMessage, ActorState};

verus! {

/// The abstract contents of a driver: its context, the cached concurrent
/// messages awaiting the next flush, the at-most-one exclusive message in
/// hand, and whether a stop acknowledgement channel is recorded.
pub struct DriverView {
    pub ctx: ContextView,
    pub cache_ref: Seq<u64>,
    pub cache_mut: Option<u64>,
    pub has_notify: bool,
}

/// What one handled mailbox message asks the runtime to do, in this order:
/// run every handler in `batch` concurrently and wait until all of them
/// have resolved, then run the `exclusive` handler alone; `force_stop`
/// tells the receive loop to terminate at once.
pub struct Dispatch {
    pub batch: Vec<u64>,
    pub exclusive: Option<u64>,
    pub force_stop: bool,
}

/// The outcome `step` assigns to one mailbox message: the driver contents
/// after handling it, and the dispatch handed to the runtime.
pub struct StepResult {
    pub post: DriverView,
    pub batch: Seq<u64>,
    pub exclusive: Option<u64>,
    pub force_stop: bool,
}

/// A step that dispatches nothing and does not stop the loop.
pub open spec fn quiet(post: DriverView) -> StepResult {
    StepResult { post, batch: Seq::empty(), exclusive: None, force_stop: false }
}

/// A concurrent message is cached, never started eagerly: it waits for the
/// next flush.
pub open spec fn cached_concurrent(pre: DriverView, payload: u64) -> StepResult {
    quiet(DriverView { cache_ref: pre.cache_ref.push(payload), ..pre })
}

/// An exclusive message is dispatched at once: the whole concurrent cache
/// is the batch that must run to completion first, and the exclusive
/// message is kept in hand until the runtime takes it after the flush.
pub open spec fn exclusive_dispatch(pre: DriverView, payload: u64) -> StepResult {
    StepResult {
        post: DriverView { cache_mut: Some(payload), ..pre },
        batch: pre.cache_ref,
        exclusive: Some(payload),
        force_stop: false,
    }
}

/// How the driver handles one mailbox message: the dispatch policy of the
/// receive loop, over the abstract driver contents.
pub open spec fn step(pre: DriverView, msg: ActorMessage) -> StepResult {
    match msg {
        ActorMessage::Ref(payload) => cached_concurrent(pre, payload),
        ActorMessage::Mut(payload) => exclusive_dispatch(pre, payload),
        ActorMessage::DelayToken(token) => {
            let consumed = DriverView {
                ctx: ContextView { delays: pre.ctx.delays.remove(token), ..pre.ctx },
                ..pre
            };
            if pre.ctx.delays.dom().contains(token) {
                let entry = pre.ctx.delays[token];
                if entry.exclusive {
                    exclusive_dispatch(consumed, entry.payload)
                } else {
                    cached_concurrent(consumed, entry.payload)
                }
            } else {
                quiet(pre)
            }
        },
        ActorMessage::DelayTokenCancel(token) => {
            quiet(DriverView {
                ctx: ContextView { delays: pre.ctx.delays.remove(token), ..pre.ctx },
                ..pre
            })
        },
        ActorMessage::IntervalToken(token) => {
            if pre.ctx.intervals.dom().contains(token) {
                let entry = pre.ctx.intervals[token];
                if entry.exclusive {
                    exclusive_dispatch(pre, entry.payload)
                } else {
                    cached_concurrent(pre, entry.payload)
                }
            } else {
                quiet(pre)
            }
        },
        ActorMessage::IntervalTokenCancel(token) => {
            quiet(DriverView {
                ctx: ContextView { intervals: pre.ctx.intervals.remove(token), ..pre.ctx },
                ..pre
            })
        },
        ActorMessage::ActorState(target, notify) => {
            StepResult {
                post: DriverView {
                    ctx: if target is Running { pre.ctx } else { stopped(pre.ctx) },
                    has_notify: notify is Some,
                    ..pre
                },
                batch: Seq::empty(),
                exclusive: None,
                force_stop: target is Stop,
            }
        },
    }
}

/// The concurrent cache after panic recovery: exactly the entries whose
/// handler had not already finished are kept, in their original order.
pub open spec fn pruned(cache: Seq<u64>, finished: Seq<bool>) -> Seq<u64>
    decreases cache.len(),
{
    if cache.len() == 0 {
        Seq::empty()
    } else {
        let rest = pruned(cache.drop_last(), finished.drop_last());
        if finished[cache.len() - 1] {
            rest
        } else {
            rest.push(cache.last())
        }
    }
}

/// Pairs a context with its actor's execution bookkeeping and decides, for
/// each mailbox message, what the runtime must run and in what order.
///
/// The ordering contract: concurrent messages accumulate in a cache and are
/// never started eagerly; before any exclusive message runs, the whole
/// cache is flushed (run concurrently, to full completion), and only then
/// does the exclusive handler run, alone.
pub struct Driver {
    ctx: Context,
    cache_ref: Vec<u64>,
    cache_mut: Option<u64>,
    drop_notify: Option<tokio::sync::oneshot::Sender<()>>,
}

impl View for Driver {
    type V = DriverView;

    closed spec fn view(&self) -> DriverView {
        DriverView {
            ctx: self.ctx@,
            cache_ref: self.cache_ref@,
            cache_mut: self.cache_mut,
            has_notify: self.drop_notify is Some,
        }
    }
}

fn copy_payloads(v: &Vec<u64>) -> (r: Vec<u64>)
    ensures
        r@ == v@,
{
    let mut r: Vec<u64> = Vec::new();
    let mut i: usize = 0;
    while i < v.len()
        invariant
            i <= v@.len(),
            r@ == v@.take(i as int),
        decreases v@.len() - i,
    {
        r.push(v[i]);
        i = i + 1;
        proof {
            assert(r@ =~= v@.take(i as int));
        }
    }
    proof {
        assert(v@.take(v@.len() as int) =~= v@);
    }
    r
}

impl Driver {
    /// Pairs a freshly created context with an empty execution cache.
    pub fn new(ctx: Context) -> (d: Driver)
        ensures
            d@ == (DriverView {
                ctx: ctx@,
                cache_ref: Seq::empty(),
                cache_mut: None,
                has_notify: false,
            }),
    {
        Driver { ctx, cache_ref: Vec::new(), cache_mut: None, drop_notify: None }
    }

    /// Borrows the owned context, for scheduling calls and lifecycle
    /// transitions between messages.
    pub fn context_mut(&mut self) -> (c: &mut Context)
        ensures
            (*c)@ == old(self)@.ctx,
            final(self)@ == (DriverView { ctx: (*final(c))@, ..old(self)@ }),
    {
        &mut self.ctx
    }

    pub fn context(&self) -> (c: &Context)
        ensures
            c@ == self@.ctx,
    {
        &self.ctx
    }

    /// Caches the exclusive message in hand (so that a panic before it is
    /// handled does not lose it) and returns the dispatch that brackets it
    /// with a full flush of the concurrent cache.
    fn begin_exclusive(&mut self, payload: u64) -> (r: Dispatch)
        ensures
            final(self)@ == (DriverView { cache_mut: Some(payload), ..old(self)@ }),
            r.batch@ == old(self)@.cache_ref,
            r.exclusive == Some(payload),
            !r.force_stop,
    {
        self.cache_mut = Some(payload);
        let batch = copy_payloads(&self.cache_ref);
        Dispatch { batch, exclusive: Some(payload), force_stop: false }
    }

    /// Handles one mailbox message exactly as `step` says: caches or
    /// resolves it, and returns what the runtime must run. The returned
    /// batch must be run to full completion (then `finish_flush` called)
    /// before the exclusive handler (taken with `take_exclusive`) starts.
    pub fn handle_message(&mut self, msg: ActorMessage) -> (r: Dispatch)
        ensures
            ({
                let s = step(old(self)@, msg);
                final(self)@ == s.post
                    && r.batch@ == s.batch
                    && r.exclusive == s.exclusive
                    && r.force_stop == s.force_stop
            }),
    {
        match msg {
            ActorMessage::Ref(payload) => {
                self.cache_ref.push(payload);
                Dispatch { batch: Vec::new(), exclusive: None, force_stop: false }
            },
            ActorMessage::Mut(payload) => self.begin_exclusive(payload),
            ActorMessage::DelayToken(token) => {
                match self.ctx.resolve_delay(token) {
                    Some(entry) => {
                        if entry.exclusive {
                            self.begin_exclusive(entry.payload)
                        } else {
                            self.cache_ref.push(entry.payload);
                            Dispatch { batch: Vec::new(), exclusive: None, force_stop: false }
                        }
                    },
                    None => {
                        proof {
                            assert(old(self)@.ctx.delays.remove(token) =~= old(self)@.ctx.delays);
                        }
                        Dispatch { batch: Vec::new(), exclusive: None, force_stop: false }
                    },
                }
            },
            ActorMessage::DelayTokenCancel(token) => {
                self.ctx.handle_delay_cancel(token);
                Dispatch { batch: Vec::new(), exclusive: None, force_stop: false }
            },
            ActorMessage::IntervalToken(token) => {
                match self.ctx.clone_interval(token) {
                    Some(entry) => {
                        if entry.exclusive {
                            self.begin_exclusive(entry.payload)
                        } else {
                            self.cache_ref.push(entry.payload);
                            Dispatch { batch: Vec::new(), exclusive: None, force_stop: false }
                        }
                    },
                    None => Dispatch { batch: Vec::new(), exclusive: None, force_stop: false },
                }
            },
            ActorMessage::IntervalTokenCancel(token) => {
                self.ctx.handle_interval_cancel(token);
                Dispatch { batch: Vec::new(), exclusive: None, force_stop: false }
            },
            ActorMessage::ActorState(target, notify) => {
                self.drop_notify = notify;
                let force_stop = target == ActorState::Stop;
                if !(target == ActorState::Running) {
                    self.ctx.stop();
                }
                Dispatch { batch: Vec::new(), exclusive: None, force_stop }
            },
        }
    }

    /// The concurrent cache as a batch to run now. Used when the mailbox
    /// runs empty, so idle periods do not leave cached readers pending.
    /// The cache itself is kept until `finish_flush`, so that a panic
    /// mid-flush does not lose the entries.
    pub fn begin_flush(&self) -> (batch: Vec<u64>)
        ensures
            batch@ == self@.cache_ref,
    {
        copy_payloads(&self.cache_ref)
    }

    /// Clears the concurrent cache. To be called only once every handler
    /// of the batch returned by `begin_flush` (or by `handle_message`) has
    /// resolved.
    pub fn finish_flush(&mut self)
        ensures
            final(self)@ == (DriverView { cache_ref: Seq::empty(), ..old(self)@ }),
    {
        self.cache_ref.clear();
    }

    /// Hands out the exclusive message in hand, clearing it: the runtime
    /// runs its handler alone, after the flush. A second call returns
    /// None, so the handler cannot be started twice.
    pub fn take_exclusive(&mut self) -> (taken: Option<u64>)
        ensures
            taken == old(self)@.cache_mut,
            final(self)@ == (DriverView { cache_mut: None, ..old(self)@ }),
    {
        self.cache_mut.take()
    }

    /// Whether a handler panic should be recovered by respawning the loop
    /// around the same state: only while the actor is `Running`; a panic
    /// in an already-stopping actor terminates it.
    pub fn should_recover(&self) -> (recover: bool)
        ensures
            recover == (self@.ctx.state is Running),
    {
        match self.ctx.state() {
            ActorState::Running => true,
            _ => false,
        }
    }

    /// Panic recovery, first half: drops the cached concurrent entries
    /// whose handlers had already independently completed before the
    /// panic, keeping every unfinished entry in order. `finished` reports,
    /// per cache entry, whether its handler finished.
    pub fn prune_finished(&mut self, finished: &Vec<bool>)
        requires
            finished@.len() == old(self)@.cache_ref.len(),
        ensures
            final(self)@ == (DriverView {
                cache_ref: pruned(old(self)@.cache_ref, finished@),
                ..old(self)@
            }),
    {
        let mut kept: Vec<u64> = Vec::new();
        let mut i: usize = 0;
        while i < self.cache_ref.len()
            invariant
                i <= self.cache_ref@.len(),
                finished@.len() == self.cache_ref@.len(),
                kept@ == pruned(self.cache_ref@.take(i as int), finished@.take(i as int)),
            decreases self.cache_ref@.len() - i,
        {
            let keep_entry = !finished[i];
            if keep_entry {
                kept.push(self.cache_ref[i]);
            }
            proof {
                let c = self.cache_ref@;
                let f = finished@;
                let j = i as int;
                assert(c.take(j + 1).drop_last() =~= c.take(j));
                assert(f.take(j + 1).drop_last() =~= f.take(j));
                assert(c.take(j + 1).last() == c[j]);
                assert(f.take(j + 1)[c.take(j + 1).len() - 1] == f[j]);
            }
            i = i + 1;
        }
        proof {
            assert(self.cache_ref@.take(self.cache_ref@.len() as int) =~= self.cache_ref@);
            assert(finished@.take(finished@.len() as int) =~= finished@);
        }
        self.cache_ref = kept;
    }

    /// Signals the recorded stop acknowledgement channel, if any, exactly
    /// once: the channel is taken before it is fired, so a second call
    /// finds nothing.
    pub fn signal_stop(&mut self)
        ensures
            final(self)@ == (DriverView { has_notify: false, ..old(self)@ }),
    {
        match self.drop_notify.take() {
            Some(tx) => {
                let _ = crate::handle::oneshot_notify(tx);
            },
            None => {},
        }
    }

    pub fn concurrent_cached(&self) -> (n: usize)
        ensures
            n == self@.cache_ref.len(),
    {
        self.cache_ref.len()
    }

    pub fn exclusive_cached(&self) -> (e: Option<u64>)
        ensures
            e == self@.cache_mut,
    {
        self.cache_mut
    }

    pub fn has_notify(&self) -> (h: bool)
        ensures
            h == self@.has_notify,
    {
        match &self.drop_notify {
            Some(_) => true,
            None => false,
        }
    }
}

} // verus!
