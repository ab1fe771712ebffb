use est::sync::once::{once_event, Triggered};
use est::task::graceful::{
    finish_kind_of, supervisor_step, FinishKind, GracefulKind, GracefulTask, GracefulTaskBuilder,
    RaceEvent, ShutdownReceiver, ShutdownTrigger, SupervisorState, TaskOutput,
};
use est::task::TaskId;
use std::future::Future;
use std::time::Duration;

fn runtime() -> tokio::runtime::Runtime {
    tokio::runtime::Builder::new_multi_thread()
        .worker_threads(2)
        .enable_all()
        .build()
        .unwrap()
}

fn task_id(id: tokio::task::Id) -> TaskId {
    TaskId(id.to_string().parse().unwrap())
}

async fn recv_cause(recv: &mut ShutdownReceiver) -> GracefulKind {
    loop {
        if let Some(kind) = recv.recv_now() {
            return kind;
        }
        let mut handle = recv.watch_handle().expect("no cause cached yet");
        let _ = handle.changed().await;
    }
}

// The same wiring the spawning side performs: a watch channel for the cause,
// a one-shot pair for the explicit trigger, the inner unit spawned with its
// receiver, and a supervising task racing the trigger against natural
// completion by cooperative polling, driven through the verified transition
// function.
fn spawn_supervised<F, Fut>(work: F) -> GracefulTask<Fut::Output>
where
    F: FnOnce(ShutdownReceiver) -> Fut,
    Fut: Future + Send + 'static,
    Fut::Output: Send + 'static,
{
    let (sender, recver) = tokio::sync::watch::channel(None);
    let (trigger, mut waiter) = once_event();
    let shutdown = ShutdownTrigger::new(trigger);
    let mut inner_task = tokio::spawn(work(ShutdownReceiver::pending(recver)));
    let inner_id = task_id(inner_task.id());
    let supervising = tokio::spawn(async move {
        let mut state = SupervisorState::Running;
        loop {
            if waiter.triggered() == Triggered::Triggered {
                let (next, effect) = supervisor_step(false, state, RaceEvent::WaiterResolved(true));
                state = next;
                if let Some(kind) = effect.publish {
                    let _ = sender.send(Some(kind));
                }
            } else if inner_task.is_finished() {
                let (next, _) = supervisor_step(false, state, RaceEvent::InnerFinished);
                state = next;
            }
            if let Some(finish_kind) = finish_kind_of(state) {
                let join_result = (&mut inner_task).await;
                return TaskOutput { finish_kind, join_result };
            }
            tokio::time::sleep(Duration::from_millis(2)).await;
        }
    });
    let outer_id = task_id(supervising.id());
    GracefulTask::from_parts(inner_id, outer_id, shutdown, supervising)
}

#[test]
fn active_completion_reports_inner_value() {
    let rt = runtime();
    rt.block_on(async {
        let task = spawn_supervised(|_recv| async move {
            tokio::time::sleep(Duration::from_millis(30)).await;
            42
        });
        let (outer, inner) = task.ids();
        assert_ne!(outer, inner);

        let output = task.into_join_handle().await.unwrap();
        assert_eq!(output.finish_kind, FinishKind::Active);
        assert_eq!(output.join_result.unwrap(), 42);
    });
}

#[test]
fn explicit_shutdown_reports_passive_explicit() {
    let rt = runtime();
    rt.block_on(async {
        let task = spawn_supervised(|mut recv| async move { recv_cause(&mut recv).await });
        assert!(!task.is_finished());

        // Idempotence: the first firing succeeds, the second never re-fires.
        assert!(task.trigger_graceful_shutdown());
        assert!(!task.trigger_graceful_shutdown());

        let output = task.into_join_handle().await.unwrap();
        assert_eq!(output.finish_kind, FinishKind::Passive(GracefulKind::Explicit));
        assert_eq!(output.join_result.unwrap(), GracefulKind::Explicit);
    });
}

#[test]
fn shutdown_handle_shares_the_one_firing() {
    let rt = runtime();
    rt.block_on(async {
        let task = spawn_supervised(|mut recv| async move { recv_cause(&mut recv).await });
        let handle = task.shutdown_handle();

        assert!(handle.trigger());
        assert!(!task.trigger_graceful_shutdown());
        assert!(!handle.trigger());

        let output = task.into_join_handle().await.unwrap();
        assert_eq!(output.finish_kind, FinishKind::Passive(GracefulKind::Explicit));
    });
}

#[test]
fn trigger_is_idempotent_in_effect() {
    let (trigger, waiter) = once_event();
    let shutdown = ShutdownTrigger::new(trigger);
    assert!(shutdown.trigger());
    assert!(!shutdown.trigger());
    assert_eq!(waiter.has_been_triggered(), Triggered::Triggered);

    // With the waiter already gone even the first firing reports false, and
    // the slot is still consumed.
    let (trigger, waiter) = once_event();
    drop(waiter);
    let shutdown = ShutdownTrigger::new(trigger);
    assert!(!shutdown.trigger());
    assert!(!shutdown.trigger());
}

#[test]
fn receivers_fanout_same_cause() {
    let rt = runtime();
    rt.block_on(async {
        let (sender, recver) = tokio::sync::watch::channel(None);
        let template = ShutdownReceiver::pending(recver);
        let mut observers: Vec<ShutdownReceiver> = Vec::new();
        for _ in 0..8 {
            observers.push(template.clone());
        }

        // Exactly one publication.
        sender.send(Some(GracefulKind::CtrlC)).unwrap();

        for recv in observers.iter_mut() {
            // Every await on every observer sees the identical cause.
            assert_eq!(recv_cause(recv).await, GracefulKind::CtrlC);
            assert_eq!(recv_cause(recv).await, GracefulKind::CtrlC);
            assert_eq!(recv.recv_now(), Some(GracefulKind::CtrlC));
        }
    });
}

#[test]
fn builder_configures_interrupt_arm() {
    let builder = GracefulTask::<()>::builder_default();
    assert!(!builder.has_ctrlc_shutdown());
    assert!(!GracefulTaskBuilder::default().has_ctrlc_shutdown());
    let builder = builder.ctrlc_shutdown();
    assert!(builder.has_ctrlc_shutdown());
}

#[test]
fn race_outcome_is_decided_by_the_first_decisive_event() {
    // Explicit trigger first, inner completion later: passive explicit.
    let (s, effect) = supervisor_step(true, SupervisorState::Running, RaceEvent::WaiterResolved(true));
    assert_eq!(s, SupervisorState::CompletedPassively(GracefulKind::Explicit));
    assert_eq!(effect.publish, Some(GracefulKind::Explicit));
    assert!(!effect.fire_trigger);
    let (s, effect) = supervisor_step(true, s, RaceEvent::InnerFinished);
    assert_eq!(s, SupervisorState::CompletedPassively(GracefulKind::Explicit));
    assert_eq!(effect.publish, None);
    assert_eq!(finish_kind_of(s), Some(FinishKind::Passive(GracefulKind::Explicit)));

    // Inner completion first, shutdown causes later: active.
    let (s, effect) = supervisor_step(true, SupervisorState::Running, RaceEvent::InnerFinished);
    assert_eq!(s, SupervisorState::CompletedActively);
    assert_eq!(effect.publish, None);
    let (s, _) = supervisor_step(true, s, RaceEvent::Interrupt);
    let (s, _) = supervisor_step(true, s, RaceEvent::WaiterResolved(true));
    assert_eq!(s, SupervisorState::CompletedActively);
    assert_eq!(finish_kind_of(s), Some(FinishKind::Active));

    // An interrupt with the interrupt arm configured fires the trigger.
    let (s, effect) = supervisor_step(true, SupervisorState::Running, RaceEvent::Interrupt);
    assert_eq!(s, SupervisorState::CompletedPassively(GracefulKind::CtrlC));
    assert_eq!(effect.publish, Some(GracefulKind::CtrlC));
    assert!(effect.fire_trigger);

    // With the interrupt arm off, an interrupt decides nothing.
    let (s, effect) = supervisor_step(false, SupervisorState::Running, RaceEvent::Interrupt);
    assert_eq!(s, SupervisorState::Running);
    assert_eq!(effect.publish, None);
    assert!(!effect.fire_trigger);
    assert_eq!(finish_kind_of(s), None);

    // A trigger dropped without firing never wins the race.
    let (s, effect) = supervisor_step(true, SupervisorState::Running, RaceEvent::WaiterResolved(false));
    assert_eq!(s, SupervisorState::Running);
    assert_eq!(effect.publish, None);
}
