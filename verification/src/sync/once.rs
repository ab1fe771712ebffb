//! A one-time event channel: an exclusive pair of a single trigger and a
//! single waiter carrying one untyped event.
//!
//! The waiter remembers the first resolved state it observes, so that once it
//! has seen the event (or the loss of the trigger) every later query returns
//! the same answer without consulting the channel again.

use core::future::Future;
use core::task::Context;
use tokio::sync::oneshot::error::TryRecvError;
use tokio::sync::oneshot::{Receiver, Sender};
use vstd::prelude::*;

verus! {

/// The write half of the one-shot channel underlying a pair, from the tokio
/// runtime's synchronization primitives.
#[verifier::external_type_specification]
#[verifier::external_body]
#[verifier::reject_recursive_types(T)]
pub struct ExOneshotSender<T>(Sender<T>);

/// The read half of the one-shot channel underlying a pair.
#[verifier::external_type_specification]
#[verifier::external_body]
#[verifier::reject_recursive_types(T)]
pub struct ExOneshotReceiver<T>(Receiver<T>);

/// The error with which the read half reports a lost write half.
#[verifier::external_type_specification]
#[verifier::external_body]
pub struct ExOneshotRecvError(tokio::sync::oneshot::error::RecvError);

/// A task context, handed to poll-style waiting so that the underlying
/// channel can schedule a wake-up.
#[verifier::external_type_specification]
#[verifier::external_body]
pub struct ExContext<'a>(Context<'a>);

/// Relies on tokio's oneshot channel constructor: it allocates a fresh,
/// unused channel. Nothing further is assumed of the two halves.
pub assume_specification<T>[ tokio::sync::oneshot::channel::<T> ]() -> (r: (Sender<T>, Receiver<T>));

/// The triggered state reported by a waiter.
#[derive(Debug, Copy, Clone, PartialEq, Eq, Hash, Structural)]
pub enum Triggered {
    /// The trigger half of the pair has neither been dropped nor fired.
    Pending,
    /// The trigger half has fired the event.
    Triggered,
    /// The trigger half was dropped without firing the event.
    Dropped,
}

impl Default for Triggered {
    /// A fresh waiter starts with nothing observed.
    fn default() -> (r: Self)
        ensures
            r == Triggered::Pending,
    {
        Triggered::Pending
    }
}

/// What a single non-blocking read of the underlying one-shot channel
/// observed.
#[derive(Debug, Copy, Clone, PartialEq, Eq, Structural)]
pub enum ChannelObs {
    /// The event value was waiting in the channel and has been taken.
    Received,
    /// The channel is closed without a pending event: the trigger was
    /// dropped, or the event was already taken earlier.
    Closed,
    /// Nothing has arrived yet.
    Empty,
}

/// The resolved state that a fresh (still pending) waiter adopts after one
/// channel observation.
pub open spec fn resolved_state(obs: ChannelObs) -> Triggered {
    match obs {
        ChannelObs::Received => Triggered::Triggered,
        ChannelObs::Closed => Triggered::Dropped,
        ChannelObs::Empty => Triggered::Pending,
    }
}

/// The waiter's cached state after one resolution step: a cache that has
/// already left `Pending` is kept as is; a pending cache adopts whatever the
/// channel observation resolved to.
pub open spec fn cache_after(cache: Triggered, obs: ChannelObs) -> Triggered {
    if cache is Pending {
        resolved_state(obs)
    } else {
        cache
    }
}

/// Law: a cache that has left `Pending` is never changed by a later channel
/// observation, whatever that observation is.
pub proof fn lemma_cache_monotone(cache: Triggered, obs: ChannelObs)
    requires
        cache != Triggered::Pending,
    ensures
        cache_after(cache, obs) == cache,
{
}

/// Law: a resolved state is final. Once a resolution step has produced
/// `Triggered` or `Dropped`, every later step returns the identical value.
pub proof fn lemma_cache_final(cache: Triggered, first: ChannelObs, later: ChannelObs)
    requires
        cache_after(cache, first) != Triggered::Pending,
    ensures
        cache_after(cache_after(cache, first), later) == cache_after(cache, first),
{
}

/// Law: the cache never downgrades. If a resolution step leaves the cache
/// `Pending`, it was `Pending` before and the channel had nothing to report.
pub proof fn lemma_cache_no_downgrade(cache: Triggered, obs: ChannelObs)
    requires
        cache_after(cache, obs) == Triggered::Pending,
    ensures
        cache == Triggered::Pending,
        obs == ChannelObs::Empty,
{
}

/// One verified resolution step over the cache.
fn resolve_cache(cache: Triggered, obs: ChannelObs) -> (r: Triggered)
    ensures
        r == cache_after(cache, obs),
{
    match cache {
        Triggered::Pending => match obs {
            ChannelObs::Received => Triggered::Triggered,
            ChannelObs::Closed => Triggered::Dropped,
            ChannelObs::Empty => Triggered::Pending,
        },
        resolved => resolved,
    }
}

/// Relies on tokio's `oneshot::Receiver::try_recv`: one non-blocking read,
/// reported as a plain observation. Which observation comes back depends on
/// what the trigger half has done concurrently, so nothing is promised of it.
#[verifier::external_body]
fn try_recv_obs(recv: &mut Receiver<()>) -> ChannelObs {
    match recv.try_recv() {
        Ok(()) => ChannelObs::Received,
        Err(TryRecvError::Closed) => ChannelObs::Closed,
        Err(TryRecvError::Empty) => ChannelObs::Empty,
    }
}

/// Relies on tokio's `oneshot::Receiver::blocking_recv`: blocks the calling
/// thread until the channel resolves, returning whether the event arrived.
/// tokio documents that it panics when called from within an asynchronous
/// execution context; that is the loud failure the waiter wants there.
#[verifier::external_body]
fn blocking_recv_event(recv: Receiver<()>) -> bool {
    recv.blocking_recv().is_ok()
}

/// Relies on polling tokio's `oneshot::Receiver` as a future: reads the
/// channel once and, when nothing has arrived, registers the context's waker
/// for a wake-up. The observation depends on the trigger half's concurrent
/// behaviour, so nothing is promised of it.
#[verifier::external_body]
fn poll_recv_obs(recv: &mut Receiver<()>, cx: &mut Context<'_>) -> ChannelObs {
    match core::pin::Pin::new(recv).poll(cx) {
        core::task::Poll::Ready(Ok(())) => ChannelObs::Received,
        core::task::Poll::Ready(Err(_)) => ChannelObs::Closed,
        core::task::Poll::Pending => ChannelObs::Empty,
    }
}

/// Triggers the event to the associated [`OnceWaiter`].
///
/// A pair of both a trigger and a waiter is created by [`once_event`].
#[derive(Debug)]
pub struct OnceTrigger(Sender<()>);

impl OnceTrigger {
    /// Attempts to trigger the event on this one-time channel, returning
    /// whether triggering succeeded.
    ///
    /// Consumes the trigger, as only one event may ever be delivered. Not
    /// suspending: it can be called from synchronous and asynchronous code
    /// alike. `true` means delivery was attempted against a live waiter at
    /// that instant; `false` means the waiter was already gone and the event
    /// will never be received.
    ///
    /// Relies on tokio's `oneshot::Sender::send`, which reports exactly that
    /// distinction and never blocks.
    #[verifier::external_body]
    pub fn trigger(self) -> bool {
        self.0.send(()).is_ok()
    }

    /// Returns `true` when the associated [`OnceWaiter`] has already been
    /// dropped, in which case any later [`trigger`](OnceTrigger::trigger) is
    /// bound to fail.
    ///
    /// Relies on tokio's `oneshot::Sender::is_closed`.
    #[verifier::external_body]
    pub fn is_dropped(&self) -> bool {
        self.0.is_closed()
    }

    /// Checks whether the [`OnceWaiter`] has been dropped and, if not yet,
    /// schedules the context's waker for a notification once it is. Returns
    /// `true` once the waiter is gone.
    ///
    /// Relies on tokio's `oneshot::Sender::poll_closed`.
    #[verifier::external_body]
    pub fn poll_dropped(&mut self, cx: &mut Context<'_>) -> bool {
        self.0.poll_closed(cx).is_ready()
    }
}

/// Waits on the event triggered from the associated [`OnceTrigger`].
///
/// The waiter keeps a cache of the first resolved state it observes. Once a
/// query has returned [`Triggered::Triggered`] or [`Triggered::Dropped`],
/// every later query — through any of the access methods — returns that same
/// value without touching the channel again.
#[derive(Debug)]
pub struct OnceWaiter {
    recv: Receiver<()>,
    triggered: Triggered,
}

impl OnceWaiter {
    /// The state this waiter has cached so far.
    pub closed spec fn cached(&self) -> Triggered {
        self.triggered
    }

    /// Obtains whether the associated [`OnceTrigger`] has triggered the
    /// event, without suspending.
    ///
    /// Consults the cache first; only a still-pending waiter reads the
    /// channel, and whatever it resolves to is cached before returning.
    pub fn triggered(&mut self) -> (r: Triggered)
        ensures
            final(self).cached() == r,
            old(self).cached() != Triggered::Pending ==> r == old(self).cached(),
            r == Triggered::Pending ==> old(self).cached() == Triggered::Pending,
    {
        match self.triggered {
            Triggered::Pending => {
                let obs = try_recv_obs(&mut self.recv);
                let resolved = resolve_cache(Triggered::Pending, obs);
                self.triggered = resolved;
                resolved
            },
            resolved => resolved,
        }
    }

    /// Like [`triggered`](OnceWaiter::triggered), but consumes the waiter,
    /// so that any trigger operation happening afterwards is bound to fail.
    pub fn has_been_triggered(self) -> (r: Triggered)
        ensures
            self.cached() != Triggered::Pending ==> r == self.cached(),
            r == Triggered::Pending ==> self.cached() == Triggered::Pending,
    {
        let mut waiter = self;
        waiter.triggered()
    }

    /// Waits for the event by blocking the calling thread, returning `true`
    /// on [`Triggered::Triggered`] and `false` on [`Triggered::Dropped`].
    ///
    /// Short-circuits from the cache when already resolved. When it does
    /// reach the channel, it relies on a blocking read that fails loudly
    /// (panics) rather than deadlocking when invoked from within an
    /// asynchronous execution context.
    pub fn blocking_wait(self) -> (r: bool)
        ensures
            self.cached() == Triggered::Triggered ==> r == true,
            self.cached() == Triggered::Dropped ==> r == false,
    {
        match self.triggered {
            Triggered::Triggered => true,
            Triggered::Dropped => false,
            Triggered::Pending => blocking_recv_event(self.recv),
        }
    }

    /// One poll-style waiting step: `Some(true)` once the event has been
    /// triggered, `Some(false)` once the trigger was dropped without firing,
    /// and `None` while still pending — in which case the context's waker is
    /// registered for a wake-up and the cache is left untouched.
    ///
    /// The same monotonic caching discipline as
    /// [`triggered`](OnceWaiter::triggered): a spurious wake that still finds
    /// the channel pending does not corrupt the cache, and once resolved the
    /// answer comes from the cache alone.
    pub fn poll_wait(&mut self, cx: &mut Context<'_>) -> (r: Option<bool>)
        ensures
            r == poll_outcome(final(self).cached()),
            old(self).cached() != Triggered::Pending ==> final(self).cached() == old(self).cached(),
            r is None ==> old(self).cached() == Triggered::Pending,
    {
        match self.triggered {
            Triggered::Pending => {
                let obs = poll_recv_obs(&mut self.recv, cx);
                let resolved = resolve_cache(Triggered::Pending, obs);
                self.triggered = resolved;
                poll_outcome_of(resolved)
            },
            resolved => poll_outcome_of(resolved),
        }
    }
}

/// The outcome a poll-style wait reports for a given cached state: resolved
/// states are final answers, a pending state is no answer yet.
pub open spec fn poll_outcome(state: Triggered) -> Option<bool> {
    match state {
        Triggered::Pending => None,
        Triggered::Triggered => Some(true),
        Triggered::Dropped => Some(false),
    }
}

/// Executable form of [`poll_outcome`].
fn poll_outcome_of(state: Triggered) -> (r: Option<bool>)
    ensures
        r == poll_outcome(state),
{
    match state {
        Triggered::Pending => None,
        Triggered::Triggered => Some(true),
        Triggered::Dropped => Some(false),
    }
}

/// Creates a new one-time exclusive pair for triggering and waiting on a
/// single untyped event across tasks.
///
/// The [`OnceTrigger`] handle is used by the producer to trigger the event;
/// the [`OnceWaiter`] handle is used by the consumer to wait for it. Each
/// handle can be moved to a separate task. The waiter starts with nothing
/// observed.
pub fn once_event() -> (r: (OnceTrigger, OnceWaiter))
    ensures
        r.1.cached() == Triggered::Pending,
{
    let (send, recv) = tokio::sync::oneshot::channel();
    (OnceTrigger(send), OnceWaiter { recv, triggered: Triggered::Pending })
}

} // verus!
