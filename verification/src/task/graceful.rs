//! The graceful-shutdown task supervisor.
//!
//! A supervised task races three concerns: an optional external interrupt
//! signal, an explicit shutdown trigger, and the natural completion of the
//! inner unit of work. Exactly one of them wins; the winner determines the
//! reported finish kind, and a shutdown cause is published to the observers
//! at most once.
//!
//! The decision logic of the supervising task is the verified state machine
//! in this module; the spawning and the racing itself run on the scheduler
//! outside of it.

use super::TaskId;
use crate::sync::once::OnceTrigger;
use std::sync::Arc;
use tokio::sync::watch;
use tokio::sync::Mutex;
use tokio::task::{JoinError, JoinHandle};
use vstd::prelude::*;

verus! {

/// The asynchronous mutual-exclusion lock guarding the shared trigger slot,
/// from the tokio runtime's synchronization primitives.
#[verifier::external_type_specification]
#[verifier::external_body]
#[verifier::reject_recursive_types(T)]
pub struct ExTokioMutex<T: ?Sized>(Mutex<T>);

/// The read half of the single-writer multi-reader watch channel that fans
/// the shutdown cause out to the observers.
#[verifier::external_type_specification]
#[verifier::external_body]
#[verifier::reject_recursive_types(T)]
pub struct ExWatchReceiver<T>(watch::Receiver<T>);

/// An owned handle awaiting the terminal outcome of a spawned task.
#[verifier::external_type_specification]
#[verifier::external_body]
#[verifier::reject_recursive_types(T)]
pub struct ExJoinHandle<T>(JoinHandle<T>);

/// The error with which a join handle reports that the task it was awaiting
/// panicked or was aborted.
#[verifier::external_type_specification]
#[verifier::external_body]
pub struct ExJoinError(JoinError);

/// Relies on tokio's `JoinHandle::is_finished`: a non-suspending probe of
/// whether the task has run to completion. Whether it has depends on the
/// scheduler, so nothing is promised of the answer.
pub assume_specification<T>[ JoinHandle::<T>::is_finished ](handle: &JoinHandle<T>) -> bool;

/// The cause of a graceful (passive) shutdown.
#[derive(Debug, Copy, Clone, Eq, PartialEq, Hash, Structural)]
pub enum GracefulKind {
    /// The external interrupt signal resolved.
    CtrlC,
    /// The explicit shutdown trigger was fired.
    Explicit,
}

/// How a supervised task finished.
#[derive(Debug, Copy, Clone, Eq, PartialEq, Hash, Structural)]
pub enum FinishKind {
    /// The inner unit of work completed on its own.
    Active,
    /// A shutdown cause preempted the inner unit of work.
    Passive(GracefulKind),
}

/// The lifecycle of one supervised task: running until exactly one of the
/// race arms wins, then terminal.
#[derive(Debug, Copy, Clone, Eq, PartialEq, Hash, Structural)]
pub enum SupervisorState {
    /// The inner unit of work is still running and no shutdown cause has
    /// won the race.
    Running,
    /// The inner unit of work completed on its own.
    CompletedActively,
    /// A shutdown cause preempted the inner unit of work.
    CompletedPassively(GracefulKind),
}

/// An event one of the supervising race arms can observe.
#[derive(Debug, Copy, Clone, Eq, PartialEq, Hash, Structural)]
pub enum RaceEvent {
    /// The external interrupt signal resolved.
    Interrupt,
    /// The one-shot waiter resolved: `true` when the explicit trigger fired,
    /// `false` when the trigger was dropped without firing.
    WaiterResolved(bool),
    /// The inner unit of work finished on its own.
    InnerFinished,
}

/// The side effects the supervising task owes on one transition: firing the
/// shared shutdown trigger, and publishing a cause to the watching
/// receivers.
#[derive(Debug, Copy, Clone)]
pub struct StepEffect {
    /// Fire the shared shutdown trigger, so that the explicit-trigger state
    /// also reflects an interrupt-initiated shutdown.
    pub fire_trigger: bool,
    /// Publish this cause to the observers.
    pub publish: Option<GracefulKind>,
}

/// The supervisor's transition function. A terminal state never moves again.
/// From `Running`: an interrupt completes passively with the interrupt cause,
/// but only when the interrupt arm is configured in; a fired explicit trigger
/// completes passively with the explicit cause; a trigger dropped without
/// firing decides nothing (no shutdown was requested); natural completion of
/// the inner unit completes actively.
pub open spec fn supervisor_step_spec(
    ctrlc: bool,
    state: SupervisorState,
    event: RaceEvent,
) -> SupervisorState {
    if state is Running {
        match event {
            RaceEvent::Interrupt => if ctrlc {
                SupervisorState::CompletedPassively(GracefulKind::CtrlC)
            } else {
                state
            },
            RaceEvent::WaiterResolved(fired) => if fired {
                SupervisorState::CompletedPassively(GracefulKind::Explicit)
            } else {
                state
            },
            RaceEvent::InnerFinished => SupervisorState::CompletedActively,
        }
    } else {
        state
    }
}

/// The cause a transition publishes: exactly the cause of a passive
/// completion entered by this very transition, nothing otherwise.
pub open spec fn step_publishes(
    ctrlc: bool,
    state: SupervisorState,
    event: RaceEvent,
) -> Option<GracefulKind> {
    if state is Running {
        match supervisor_step_spec(ctrlc, state, event) {
            SupervisorState::CompletedPassively(kind) => Some(kind),
            _ => None,
        }
    } else {
        None
    }
}

/// Whether a transition fires the shared shutdown trigger: only an interrupt
/// winning the race does, so that the explicit-trigger state catches up with
/// the interrupt-initiated shutdown.
pub open spec fn step_fires_trigger(ctrlc: bool, state: SupervisorState, event: RaceEvent) -> bool {
    state is Running && event is Interrupt && ctrlc
}

/// One verified transition of the supervising task: the next state, and the
/// side effects owed on the way there.
pub fn supervisor_step(ctrlc: bool, state: SupervisorState, event: RaceEvent) -> (r: (
    SupervisorState,
    StepEffect,
))
    ensures
        r.0 == supervisor_step_spec(ctrlc, state, event),
        r.1.publish == step_publishes(ctrlc, state, event),
        r.1.fire_trigger == step_fires_trigger(ctrlc, state, event),
{
    match state {
        SupervisorState::Running => match event {
            RaceEvent::Interrupt => {
                if ctrlc {
                    (
                        SupervisorState::CompletedPassively(GracefulKind::CtrlC),
                        StepEffect { fire_trigger: true, publish: Some(GracefulKind::CtrlC) },
                    )
                } else {
                    (state, StepEffect { fire_trigger: false, publish: None })
                }
            },
            RaceEvent::WaiterResolved(fired) => {
                if fired {
                    (
                        SupervisorState::CompletedPassively(GracefulKind::Explicit),
                        StepEffect { fire_trigger: false, publish: Some(GracefulKind::Explicit) },
                    )
                } else {
                    (state, StepEffect { fire_trigger: false, publish: None })
                }
            },
            RaceEvent::InnerFinished => {
                (SupervisorState::CompletedActively, StepEffect { fire_trigger: false, publish: None })
            },
        },
        terminal => (terminal, StepEffect { fire_trigger: false, publish: None }),
    }
}

/// The finish kind a state reports: none while running, the active kind for
/// a natural completion, the passive kind with its cause for a preempted
/// one.
pub open spec fn finish_kind_spec(state: SupervisorState) -> Option<FinishKind> {
    match state {
        SupervisorState::Running => None,
        SupervisorState::CompletedActively => Some(FinishKind::Active),
        SupervisorState::CompletedPassively(kind) => Some(FinishKind::Passive(kind)),
    }
}

/// Executable form of [`finish_kind_spec`].
pub fn finish_kind_of(state: SupervisorState) -> (r: Option<FinishKind>)
    ensures
        r == finish_kind_spec(state),
{
    match state {
        SupervisorState::Running => None,
        SupervisorState::CompletedActively => Some(FinishKind::Active),
        SupervisorState::CompletedPassively(kind) => Some(FinishKind::Passive(kind)),
    }
}

/// Whether an event decides the race when it reaches a running supervisor.
pub open spec fn decisive(ctrlc: bool, event: RaceEvent) -> bool {
    match event {
        RaceEvent::Interrupt => ctrlc,
        RaceEvent::WaiterResolved(fired) => fired,
        RaceEvent::InnerFinished => true,
    }
}

/// The state after the supervisor has consumed a whole sequence of events,
/// first to last.
pub open spec fn run_events(ctrlc: bool, state: SupervisorState, events: Seq<RaceEvent>) -> SupervisorState
    decreases events.len(),
{
    if events.len() == 0 {
        state
    } else {
        run_events(ctrlc, supervisor_step_spec(ctrlc, state, events[0]), events.drop_first())
    }
}

/// How many causes a whole sequence of events publishes.
pub open spec fn publications(ctrlc: bool, state: SupervisorState, events: Seq<RaceEvent>) -> nat
    decreases events.len(),
{
    if events.len() == 0 {
        0
    } else {
        (if step_publishes(ctrlc, state, events[0]) is Some {
            1nat
        } else {
            0nat
        }) + publications(ctrlc, supervisor_step_spec(ctrlc, state, events[0]), events.drop_first())
    }
}

/// Law: a terminal state is final. No later event moves it, fires the
/// trigger, or publishes a cause.
pub proof fn lemma_terminal_stable(ctrlc: bool, state: SupervisorState, events: Seq<RaceEvent>)
    requires
        !(state is Running),
    ensures
        run_events(ctrlc, state, events) == state,
        publications(ctrlc, state, events) == 0,
    decreases events.len(),
{
    if events.len() > 0 {
        lemma_terminal_stable(ctrlc, state, events.drop_first());
    }
}

/// Law (race determinism, explicit first): if the explicit trigger fires
/// strictly before the inner unit completes, and no decisive interrupt comes
/// first, the supervised task completes passively with the explicit cause —
/// whatever events follow.
pub proof fn lemma_explicit_first_decides(ctrlc: bool, events: Seq<RaceEvent>, i: int)
    requires
        0 <= i < events.len(),
        events[i] == RaceEvent::WaiterResolved(true),
        forall|j: int| 0 <= j < i ==> !decisive(ctrlc, #[trigger] events[j]),
    ensures
        run_events(ctrlc, SupervisorState::Running, events)
            == SupervisorState::CompletedPassively(GracefulKind::Explicit),
    decreases i,
{
    if i == 0 {
        lemma_terminal_stable(
            ctrlc,
            SupervisorState::CompletedPassively(GracefulKind::Explicit),
            events.drop_first(),
        );
    } else {
        assert(!decisive(ctrlc, events[0]));
        assert(supervisor_step_spec(ctrlc, SupervisorState::Running, events[0])
            == SupervisorState::Running);
        assert(events.drop_first()[i - 1] == events[i]);
        assert(forall|j: int| 0 <= j < i - 1 ==> !decisive(ctrlc, #[trigger] events.drop_first()[j]));
        lemma_explicit_first_decides(ctrlc, events.drop_first(), i - 1);
    }
}

/// Law (race determinism, natural completion first): if the inner unit
/// completes strictly before any decisive shutdown cause, the supervised
/// task completes actively — whatever events follow.
pub proof fn lemma_inner_first_decides(ctrlc: bool, events: Seq<RaceEvent>, i: int)
    requires
        0 <= i < events.len(),
        events[i] == RaceEvent::InnerFinished,
        forall|j: int| 0 <= j < i ==> !decisive(ctrlc, #[trigger] events[j]),
    ensures
        run_events(ctrlc, SupervisorState::Running, events) == SupervisorState::CompletedActively,
    decreases i,
{
    if i == 0 {
        lemma_terminal_stable(ctrlc, SupervisorState::CompletedActively, events.drop_first());
    } else {
        assert(!decisive(ctrlc, events[0]));
        assert(events.drop_first()[i - 1] == events[i]);
        assert(forall|j: int| 0 <= j < i - 1 ==> !decisive(ctrlc, #[trigger] events.drop_first()[j]));
        lemma_inner_first_decides(ctrlc, events.drop_first(), i - 1);
    }
}

/// Law (race determinism, interrupt first): if the interrupt signal resolves
/// strictly before the inner unit completes and before the explicit trigger
/// fires, and the interrupt arm is configured in, the supervised task
/// completes passively with the interrupt cause — whatever events follow.
pub proof fn lemma_interrupt_first_decides(ctrlc: bool, events: Seq<RaceEvent>, i: int)
    requires
        ctrlc,
        0 <= i < events.len(),
        events[i] == RaceEvent::Interrupt,
        forall|j: int| 0 <= j < i ==> !decisive(ctrlc, #[trigger] events[j]),
    ensures
        run_events(ctrlc, SupervisorState::Running, events)
            == SupervisorState::CompletedPassively(GracefulKind::CtrlC),
    decreases i,
{
    if i == 0 {
        lemma_terminal_stable(
            ctrlc,
            SupervisorState::CompletedPassively(GracefulKind::CtrlC),
            events.drop_first(),
        );
    } else {
        assert(!decisive(ctrlc, events[0]));
        assert(events.drop_first()[i - 1] == events[i]);
        assert(forall|j: int| 0 <= j < i - 1 ==> !decisive(ctrlc, #[trigger] events.drop_first()[j]));
        lemma_interrupt_first_decides(ctrlc, events.drop_first(), i - 1);
    }
}

/// Law (single publication): starting from `Running`, a whole run publishes
/// a shutdown cause at most once, however the race is scheduled.
pub proof fn lemma_at_most_one_publication(ctrlc: bool, events: Seq<RaceEvent>)
    ensures
        publications(ctrlc, SupervisorState::Running, events) <= 1,
    decreases events.len(),
{
    if events.len() > 0 {
        let next = supervisor_step_spec(ctrlc, SupervisorState::Running, events[0]);
        if next is Running {
            assert(step_publishes(ctrlc, SupervisorState::Running, events[0]) is None);
            lemma_at_most_one_publication(ctrlc, events.drop_first());
        } else {
            lemma_terminal_stable(ctrlc, next, events.drop_first());
        }
    }
}

/// The take-then-fire slot inside a [`ShutdownTrigger`], as its exclusive
/// consumption sees it: either still armed with the stored one-shot trigger,
/// or already taken by an earlier firing attempt.
#[derive(Debug, Copy, Clone, Eq, PartialEq, Structural)]
pub enum TriggerSlot {
    /// The one-shot trigger is still stored.
    Armed,
    /// The one-shot trigger has been removed.
    Taken,
}

/// One take attempt on the slot: only an armed slot yields the trigger, and
/// the slot is empty afterwards either way.
pub open spec fn slot_take(slot: TriggerSlot) -> (TriggerSlot, bool) {
    (TriggerSlot::Taken, slot is Armed)
}

/// What a firing attempt returns, given the slot it found and whether the
/// delivery against the waiter succeeded: true exactly when the slot still
/// held the trigger and the delivery went through.
pub open spec fn trigger_result(slot: TriggerSlot, delivered: bool) -> bool {
    slot is Armed && delivered
}

/// Law (idempotent firing): after any take attempt the slot is empty, so a
/// second firing attempt returns false whatever its delivery would have
/// done.
pub proof fn lemma_second_trigger_fails(slot: TriggerSlot, delivered: bool)
    ensures
        slot_take(slot).0 == TriggerSlot::Taken,
        trigger_result(slot_take(slot).0, delivered) == false,
{
}

/// Relies on tokio's `Mutex::new`: stores the given trigger in a fresh
/// lock, arming the slot.
#[verifier::external_body]
fn new_locked_slot(trigger: Option<OnceTrigger>) -> Mutex<Option<OnceTrigger>> {
    Mutex::new(trigger)
}

/// Relies on `Mutex::try_lock` and on moving the stored trigger out of the
/// acquired guard: the take half of take-then-fire. Contention for the lock,
/// and an earlier take having emptied the slot, both yield `None`; which of
/// these happens depends on the other holders of the shared slot, so nothing
/// is promised of the result.
#[verifier::external_body]
fn try_lock_take(slot: &Mutex<Option<OnceTrigger>>) -> Option<OnceTrigger> {
    match slot.try_lock() {
        Ok(mut guard) => guard.take(),
        Err(_) => None,
    }
}

/// Relies on `Arc::clone`: a new handle to the same shared slot.
#[verifier::external_body]
fn clone_shared_slot(slot: &Arc<Mutex<Option<OnceTrigger>>>) -> Arc<Mutex<Option<OnceTrigger>>> {
    Arc::clone(slot)
}

/// A shareable handle that can fire the explicit shutdown trigger of a
/// supervised task.
///
/// Firing is take-then-fire: the stored one-shot trigger sits in a slot
/// behind a mutual-exclusion lock, and the first caller to remove it
/// performs the one firing. Every other caller — later, or concurrent and
/// losing the lock — observes `false`. A failed lock acquisition degrades to
/// "not fired" rather than blocking.
#[derive(Debug)]
pub struct ShutdownTrigger(Arc<Mutex<Option<OnceTrigger>>>);

impl ShutdownTrigger {
    /// Wraps a one-shot trigger in a fresh shared armed slot.
    pub fn new(trigger: OnceTrigger) -> Self {
        ShutdownTrigger(Arc::new(new_locked_slot(Some(trigger))))
    }

    /// Attempts to fire the stored trigger, returning whether this call
    /// performed a successful delivery.
    ///
    /// The decision over the taken slot is
    /// [`trigger_result`]: true exactly when this caller removed the stored
    /// trigger and the delivery found the waiter alive. Idempotent in
    /// effect: once any call has taken the trigger, every later call
    /// returns false ([`lemma_second_trigger_fails`]).
    pub fn trigger(&self) -> bool {
        match try_lock_take(&self.0) {
            Some(trigger) => trigger.trigger(),
            None => false,
        }
    }

    /// A new handle to the same shared slot.
    pub fn clone_handle(&self) -> Self {
        ShutdownTrigger(clone_shared_slot(&self.0))
    }
}

/// Relies on tokio's `watch::Receiver::borrow_and_update`: yields the value
/// most recently published to the watch channel and marks it seen. Which
/// value that is depends on the writer's concurrent behaviour, so nothing is
/// promised of the result.
#[verifier::external_body]
fn watch_peek(recv: &mut watch::Receiver<Option<GracefulKind>>) -> Option<GracefulKind> {
    *recv.borrow_and_update()
}

/// Relies on tokio's `watch::Receiver::clone`: a new reader of the same
/// watch channel, starting from this reader's cursor.
pub assume_specification<T>[ <watch::Receiver<T> as Clone>::clone ](recv: &watch::Receiver<T>) -> watch::Receiver<T>;

/// What a [`ShutdownReceiver`] holds: the still-pending watch handle, or the
/// cause it has already observed.
#[derive(Debug, Clone)]
enum RecvInner {
    /// No cause observed yet; the watch channel may still deliver one.
    Pending(watch::Receiver<Option<GracefulKind>>),
    /// The observed cause, cached: the watch channel is never consulted
    /// again.
    Shutdown(GracefulKind),
}

/// An observer of the shutdown cause of one supervised task.
///
/// Once a cause has been observed it is cached, and every later query
/// returns that same cause without re-consulting the watch channel — the
/// same monotonic caching discipline as the one-shot waiter's state cache.
#[derive(Debug, Clone)]
pub struct ShutdownReceiver(RecvInner);

impl ShutdownReceiver {
    /// The cause this receiver has cached so far.
    pub closed spec fn cached(&self) -> Option<GracefulKind> {
        match self.0 {
            RecvInner::Pending(_) => None,
            RecvInner::Shutdown(kind) => Some(kind),
        }
    }

    /// A fresh receiver over a watch channel, with nothing observed yet.
    pub fn pending(recv: watch::Receiver<Option<GracefulKind>>) -> (r: Self)
        ensures
            r.cached() is None,
    {
        ShutdownReceiver(RecvInner::Pending(recv))
    }

    /// One non-suspending query for the shutdown cause.
    ///
    /// An already-observed cause is answered from the cache. Otherwise the
    /// watch channel is read once; a published cause is cached before it is
    /// returned, and `None` means no cause has been published yet.
    pub fn recv_now(&mut self) -> (r: Option<GracefulKind>)
        ensures
            final(self).cached() == r,
            old(self).cached() is Some ==> r == old(self).cached(),
            r is None ==> old(self).cached() is None,
    {
        let peeked = match &mut self.0 {
            RecvInner::Shutdown(kind) => {
                return Some(*kind);
            },
            RecvInner::Pending(recv) => watch_peek(recv),
        };
        match peeked {
            Some(kind) => {
                self.0 = RecvInner::Shutdown(kind);
                Some(kind)
            },
            None => None,
        }
    }

    /// A handle on the watch channel for suspending on the next
    /// publication: a new reader over the same channel, or `None` once the
    /// cause is already cached and no waiting is needed.
    pub fn watch_handle(&self) -> (r: Option<watch::Receiver<Option<GracefulKind>>>)
        ensures
            r is Some <==> self.cached() is None,
    {
        match &self.0 {
            RecvInner::Pending(recv) => Some(recv.clone()),
            RecvInner::Shutdown(_) => None,
        }
    }
}

/// Configures a graceful task before it is spawned.
#[derive(Debug, Copy, Clone, Eq, PartialEq, Hash, Structural)]
pub struct GracefulTaskBuilder {
    ctrlc_shutdown: bool,
}

impl GracefulTaskBuilder {
    /// Whether the interrupt-signal arm participates in the race.
    pub closed spec fn ctrlc_configured(&self) -> bool {
        self.ctrlc_shutdown
    }

    /// Lets the external interrupt signal initiate a graceful shutdown of
    /// the spawned task.
    pub fn ctrlc_shutdown(self) -> (r: Self)
        ensures
            r.ctrlc_configured(),
    {
        GracefulTaskBuilder { ctrlc_shutdown: true }
    }

    /// Reads the interrupt-arm configuration, for the spawning side.
    pub fn has_ctrlc_shutdown(&self) -> (r: bool)
        ensures
            r == self.ctrlc_configured(),
    {
        self.ctrlc_shutdown
    }
}

impl Default for GracefulTaskBuilder {
    /// The interrupt-signal arm is off by default.
    fn default() -> (r: Self)
        ensures
            !r.ctrlc_configured(),
    {
        GracefulTaskBuilder { ctrlc_shutdown: false }
    }
}

/// The result record of a supervised task: which race arm finished it, and
/// the inner unit's own outcome. A panic or abort of the inner unit is
/// surfaced as the error of `join_result`, preserved verbatim, never
/// propagated.
#[derive(Debug)]
pub struct TaskOutput<T> {
    /// Which race arm finished the task.
    pub finish_kind: FinishKind,
    /// The inner unit's own outcome.
    pub join_result: Result<T, JoinError>,
}

/// A supervised task: the identities of the supervising and the inner unit,
/// a shareable shutdown trigger, and the handle awaiting the supervising
/// unit's terminal outcome.
#[derive(Debug)]
#[verifier::reject_recursive_types(T)]
pub struct GracefulTask<T> {
    inner: TaskId,
    outer: TaskId,
    graceful: ShutdownTrigger,
    task: JoinHandle<TaskOutput<T>>,
}

impl<T> GracefulTask<T> {
    /// The identity of the inner unit of work.
    pub closed spec fn inner_id(&self) -> TaskId {
        self.inner
    }

    /// The identity of the supervising unit.
    pub closed spec fn outer_id(&self) -> TaskId {
        self.outer
    }

    /// A default builder: the interrupt-signal arm is off.
    pub fn builder_default() -> (r: GracefulTaskBuilder)
        ensures
            !r.ctrlc_configured(),
    {
        GracefulTaskBuilder::default()
    }

    /// Assembles a supervised task from what the spawning side wired up:
    /// both identities, the shared trigger, and the supervising unit's join
    /// handle.
    pub fn from_parts(
        inner: TaskId,
        outer: TaskId,
        graceful: ShutdownTrigger,
        task: JoinHandle<TaskOutput<T>>,
    ) -> (r: Self)
        ensures
            r.inner_id() == inner,
            r.outer_id() == outer,
    {
        GracefulTask { inner, outer, graceful, task }
    }

    /// Both task identities, supervising unit first, for observability and
    /// correlation.
    pub fn ids(&self) -> (r: (TaskId, TaskId))
        ensures
            r == (self.outer_id(), self.inner_id()),
    {
        (self.outer, self.inner)
    }

    /// Fires the explicit shutdown trigger; idempotent in effect, as
    /// [`ShutdownTrigger::trigger`] describes.
    pub fn trigger_graceful_shutdown(&self) -> bool {
        self.graceful.trigger()
    }

    /// A clone of the shareable trigger handle, for callers outside this
    /// task's own scope.
    pub fn shutdown_handle(&self) -> ShutdownTrigger {
        self.graceful.clone_handle()
    }

    /// Whether the supervising unit has run to completion, without
    /// suspending.
    pub fn is_finished(&self) -> bool {
        self.task.is_finished()
    }

    /// Gives up the supervised-task handle, keeping only the join handle of
    /// the supervising unit, for the side that awaits its terminal outcome.
    pub fn into_join_handle(self) -> JoinHandle<TaskOutput<T>> {
        let GracefulTask { inner: _, outer: _, graceful: _, task } = self;
        task
    }
}

} // verus!
