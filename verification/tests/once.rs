use est::sync::once::{once_event, Triggered};
use std::task::Poll;

fn runtime() -> tokio::runtime::Runtime {
    tokio::runtime::Builder::new_multi_thread()
        .worker_threads(2)
        .enable_all()
        .build()
        .unwrap()
}

async fn await_waiter(waiter: &mut est::sync::once::OnceWaiter) -> bool {
    std::future::poll_fn(|cx| match waiter.poll_wait(cx) {
        Some(resolved) => Poll::Ready(resolved),
        None => Poll::Pending,
    })
    .await
}

#[test]
fn triggered() {
    let (trigger, mut waiter) = once_event();
    assert_eq!(waiter.triggered(), Triggered::Pending);
    assert_eq!(waiter.triggered(), Triggered::Pending);
    assert!(trigger.trigger());
    assert_eq!(waiter.triggered(), Triggered::Triggered);
    assert_eq!(waiter.triggered(), Triggered::Triggered);

    let (trigger, mut waiter) = once_event();
    drop(trigger);
    assert_eq!(waiter.triggered(), Triggered::Dropped);
    assert_eq!(waiter.triggered(), Triggered::Dropped);
}

#[test]
fn has_been_triggered() {
    let (trigger, waiter) = once_event();
    assert!(!trigger.is_dropped());
    assert_eq!(waiter.has_been_triggered(), Triggered::Pending);
    assert!(trigger.is_dropped());
    assert!(!trigger.trigger());

    let (trigger, waiter) = once_event();
    assert!(trigger.trigger());
    assert_eq!(waiter.has_been_triggered(), Triggered::Triggered);

    let (trigger, waiter) = once_event();
    drop(trigger);
    assert_eq!(waiter.has_been_triggered(), Triggered::Dropped);
}

#[test]
fn is_dropped() {
    let (trigger, waiter) = once_event();
    assert!(!trigger.is_dropped());
    drop(waiter);
    assert!(trigger.is_dropped());
    assert!(!trigger.trigger());
}

#[test]
fn fire_after_waiter_dropped_is_false() {
    let (trigger, waiter) = once_event();
    drop(waiter);
    assert!(trigger.is_dropped());
    assert!(!trigger.trigger());

    let (trigger, waiter) = once_event();
    drop(waiter);
    assert!(!trigger.trigger());
}

#[test]
fn resolved_state_is_cached_on_every_path() {
    // Once Triggered has been observed, every later observation agrees,
    // through polling, consuming, and blocking access alike.
    let (trigger, mut waiter) = once_event();
    assert!(trigger.trigger());
    assert_eq!(waiter.triggered(), Triggered::Triggered);
    assert_eq!(waiter.triggered(), Triggered::Triggered);
    assert!(waiter.blocking_wait());

    let (trigger, mut waiter) = once_event();
    drop(trigger);
    assert_eq!(waiter.triggered(), Triggered::Dropped);
    assert_eq!(waiter.triggered(), Triggered::Dropped);
    assert_eq!(waiter.has_been_triggered(), Triggered::Dropped);

    let (trigger, mut waiter) = once_event();
    assert!(trigger.trigger());
    assert_eq!(waiter.triggered(), Triggered::Triggered);
    assert!(waiter.blocking_wait());
}

#[test]
fn async_wait_scenarios() {
    let rt = runtime();
    rt.block_on(async {
        // Fire on one task, await the waiter on another: expect true.
        let (trigger, mut waiter) = once_event();
        let firing = tokio::spawn(async move {
            assert!(trigger.trigger());
        });
        assert!(await_waiter(&mut waiter).await);
        firing.await.unwrap();

        // Drop the waiter first, then fire: expect false.
        let (trigger, waiter) = once_event();
        drop(waiter);
        assert!(!trigger.trigger());

        // Drop the trigger first, then await the waiter: expect false.
        let (trigger, mut waiter) = once_event();
        drop(trigger);
        assert!(!await_waiter(&mut waiter).await);

        // A waiter that already resolved answers later awaits from cache.
        let (trigger, mut waiter) = once_event();
        assert!(trigger.trigger());
        while waiter.triggered() == Triggered::Pending {}
        assert_eq!(waiter.triggered(), Triggered::Triggered);
        assert!(await_waiter(&mut waiter).await);
        assert_eq!(waiter.has_been_triggered(), Triggered::Triggered);
    });
}

#[test]
fn blocking_wait_outside_async() {
    let rt = runtime();
    rt.block_on(async {
        let (trigger, waiter) = once_event();
        let blocked = tokio::task::spawn_blocking(move || waiter.blocking_wait());
        assert!(trigger.trigger());
        assert!(blocked.await.unwrap());

        let (trigger, waiter) = once_event();
        let blocked = tokio::task::spawn_blocking(move || waiter.blocking_wait());
        drop(trigger);
        assert!(!blocked.await.unwrap());
    });
}

#[test]
fn poll_dropped_resolves_on_waiter_drop() {
    let rt = runtime();
    rt.block_on(async {
        let (mut trigger, waiter) = once_event();
        assert!(!trigger.is_dropped());

        tokio::spawn(async move {
            drop(waiter);
        });

        std::future::poll_fn(|cx| {
            if trigger.poll_dropped(cx) {
                Poll::Ready(())
            } else {
                Poll::Pending
            }
        })
        .await;
        assert!(trigger.is_dropped());
        assert!(!trigger.trigger());
    });
}
