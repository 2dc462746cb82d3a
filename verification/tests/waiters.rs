use std::sync::mpsc;
use std::task::Context;

use m64prs_core::resolver::Signal;
use m64prs_core::state::M64PError;
use m64prs_core::waiter::{
    emu_pair, register, settle, settle_registration, EmulatorFuture, EmulatorWaitManager,
    EmulatorWaiter, QueueClosed,
};

const STOPPED: i32 = 1;
const RUNNING: i32 = 2;
const PAUSED: i32 = 3;

fn poll_once(future: &mut EmulatorFuture) -> Option<Result<(), M64PError>> {
    let mut cx = Context::from_waker(futures::task::noop_waker_ref());
    future.poll(&mut cx)
}

fn manager() -> (mpsc::Sender<EmulatorWaiter>, EmulatorWaitManager) {
    let (tx, rx) = mpsc::channel();
    (tx, EmulatorWaitManager::new(rx))
}

#[test]
fn new_manager_holds_nothing() {
    let (_tx, mut manager) = manager();
    assert_eq!(manager.len(), 0);
    assert_eq!(manager.on_emu_state_changed(RUNNING), 0);
    assert_eq!(manager.len(), 0);
}

#[test]
fn paused_waiter_ignores_running_then_resolves_on_paused() {
    let (tx, mut manager) = manager();
    let mut future = register(&tx, PAUSED).unwrap();
    assert_eq!(poll_once(&mut future), None);

    assert_eq!(manager.on_emu_state_changed(RUNNING), 0);
    assert_eq!(manager.len(), 1);
    assert_eq!(poll_once(&mut future), None);

    assert_eq!(manager.on_emu_state_changed(PAUSED), 1);
    assert_eq!(manager.len(), 0);
    assert_eq!(poll_once(&mut future), Some(Ok(())));
}

#[test]
fn matching_report_resolves_through_block_on() {
    let (tx, mut manager) = manager();
    let mut future = register(&tx, STOPPED).unwrap();
    assert_eq!(manager.on_emu_state_changed(STOPPED), 1);
    let outcome = pollster::block_on(std::future::poll_fn(|cx| match future.poll(cx) {
        Some(done) => std::task::Poll::Ready(done),
        None => std::task::Poll::Pending,
    }));
    assert_eq!(outcome, Ok(()));
}

#[test]
fn tripped_waiter_is_not_tripped_again() {
    let (tx, mut manager) = manager();
    let _future = register(&tx, PAUSED).unwrap();
    assert_eq!(manager.on_emu_state_changed(PAUSED), 1);
    assert_eq!(manager.on_emu_state_changed(PAUSED), 0);
    assert_eq!(manager.len(), 0);
}

#[test]
fn every_waiter_of_the_reported_value_is_tripped() {
    let (tx, mut manager) = manager();
    let mut first = register(&tx, RUNNING).unwrap();
    let mut other = register(&tx, PAUSED).unwrap();
    let mut second = register(&tx, RUNNING).unwrap();
    let mut third = register(&tx, RUNNING).unwrap();

    assert_eq!(manager.on_emu_state_changed(RUNNING), 3);
    assert_eq!(manager.len(), 1);
    assert_eq!(poll_once(&mut first), Some(Ok(())));
    assert_eq!(poll_once(&mut second), Some(Ok(())));
    assert_eq!(poll_once(&mut third), Some(Ok(())));
    assert_eq!(poll_once(&mut other), None);

    assert_eq!(manager.on_emu_state_changed(PAUSED), 1);
    assert_eq!(poll_once(&mut other), Some(Ok(())));
    assert_eq!(manager.len(), 0);
}

#[test]
fn waiters_between_matching_ones_stay() {
    let (tx, mut manager) = manager();
    let targets = [PAUSED, RUNNING, PAUSED, PAUSED, STOPPED, PAUSED, RUNNING];
    let mut futures = Vec::new();
    for target in targets {
        futures.push((target, register(&tx, target).unwrap()));
    }
    assert_eq!(manager.on_emu_state_changed(PAUSED), 4);
    assert_eq!(manager.len(), 3);
    for (target, future) in futures.iter_mut() {
        let expected = if *target == PAUSED { Some(Ok(())) } else { None };
        assert_eq!(poll_once(future), expected);
    }
    assert_eq!(manager.on_emu_state_changed(RUNNING), 2);
    assert_eq!(manager.on_emu_state_changed(STOPPED), 1);
    assert_eq!(manager.len(), 0);
}

#[test]
fn unmatched_waiter_is_disconnected_when_the_manager_goes() {
    let (tx, mut manager) = manager();
    let mut future = register(&tx, STOPPED).unwrap();
    assert_eq!(manager.on_emu_state_changed(RUNNING), 0);
    assert_eq!(manager.on_emu_state_changed(PAUSED), 0);
    assert_eq!(poll_once(&mut future), None);
    drop(manager);
    assert_eq!(poll_once(&mut future), Some(Ok(())));
}

#[test]
fn undrained_waiter_is_disconnected_when_the_manager_goes() {
    let (tx, manager) = manager();
    let mut future = register(&tx, STOPPED).unwrap();
    assert_eq!(poll_once(&mut future), None);
    drop(manager);
    assert_eq!(poll_once(&mut future), Some(Ok(())));
}

#[test]
fn register_on_a_closed_queue_is_refused() {
    let (tx, manager) = manager();
    drop(manager);
    assert!(matches!(register(&tx, RUNNING), Err(QueueClosed)));
}

#[test]
fn abandoned_future_leaves_a_waiter_that_is_cleaned_up() {
    let (tx, mut manager) = manager();
    let future = register(&tx, RUNNING).unwrap();
    drop(future);
    assert_eq!(manager.on_emu_state_changed(PAUSED), 0);
    assert_eq!(manager.len(), 1);
    assert_eq!(manager.on_emu_state_changed(RUNNING), 1);
    assert_eq!(manager.len(), 0);
}

#[test]
fn drain_takes_what_was_registered_and_trips_nothing() {
    let (tx, mut manager) = manager();
    let mut one = register(&tx, RUNNING).unwrap();
    let _two = register(&tx, PAUSED).unwrap();
    assert_eq!(manager.len(), 0);
    assert_eq!(manager.drain(), 2);
    assert_eq!(manager.len(), 2);
    assert_eq!(manager.drain(), 0);
    assert_eq!(poll_once(&mut one), None);
}

#[test]
fn trip_leaves_the_queue_alone() {
    let (tx, mut manager) = manager();
    let mut held = register(&tx, RUNNING).unwrap();
    assert_eq!(manager.drain(), 1);
    let mut queued = register(&tx, RUNNING).unwrap();
    assert_eq!(manager.trip(RUNNING), 1);
    assert_eq!(poll_once(&mut held), Some(Ok(())));
    assert_eq!(poll_once(&mut queued), None);
    assert_eq!(manager.on_emu_state_changed(RUNNING), 1);
    assert_eq!(poll_once(&mut queued), Some(Ok(())));
}

#[test]
fn emu_pair_links_future_and_waiter() {
    let (mut future, waiter) = emu_pair(PAUSED);
    assert_eq!(waiter.value(), PAUSED);
    assert_eq!(poll_once(&mut future), None);
    let (tx, mut manager) = manager();
    tx.send(waiter).unwrap();
    assert_eq!(manager.on_emu_state_changed(PAUSED), 1);
    assert_eq!(poll_once(&mut future), Some(Ok(())));
}

#[test]
fn early_failure_is_yielded_at_once_and_every_time() {
    let (tx, mut manager) = manager();
    let mut future = register(&tx, PAUSED).unwrap();
    future.fail_early(M64PError::InvalidState);
    assert_eq!(poll_once(&mut future), Some(Err(M64PError::InvalidState)));
    assert_eq!(manager.on_emu_state_changed(PAUSED), 1);
    assert_eq!(poll_once(&mut future), Some(Err(M64PError::InvalidState)));
}

#[test]
fn conclude_keeps_a_future_whose_command_was_issued() {
    let (mut future, waiter) = emu_pair(RUNNING);
    future.conclude(Ok(()));
    assert_eq!(poll_once(&mut future), None);
    drop(waiter);
    assert_eq!(poll_once(&mut future), Some(Ok(())));
}

#[test]
fn conclude_fails_a_future_whose_command_was_refused() {
    let (mut future, _waiter) = emu_pair(RUNNING);
    future.conclude(Err(M64PError::SystemFail));
    assert_eq!(poll_once(&mut future), Some(Err(M64PError::SystemFail)));
}

#[test]
fn later_failure_replaces_an_earlier_one() {
    let (mut future, _waiter) = emu_pair(RUNNING);
    future.fail_early(M64PError::NotInit);
    future.conclude(Ok(()));
    assert_eq!(poll_once(&mut future), Some(Err(M64PError::NotInit)));
    future.conclude(Err(M64PError::Internal));
    assert_eq!(poll_once(&mut future), Some(Err(M64PError::Internal)));
}

#[test]
fn settle_maps_what_the_receiver_saw() {
    assert_eq!(settle(None), None);
    assert_eq!(settle(Some(Signal::Fired)), Some(Ok(())));
    assert_eq!(settle(Some(Signal::Disconnected)), Some(Ok(())));
}

#[test]
fn registration_follows_the_answer_of_the_queue() {
    let (future, waiter) = emu_pair(PAUSED);
    let mut kept = settle_registration(future, Ok(())).unwrap();
    assert_eq!(poll_once(&mut kept), None);
    drop(waiter);
    assert_eq!(poll_once(&mut kept), Some(Ok(())));

    let (future, waiter) = emu_pair(RUNNING);
    let refused = settle_registration(future, Err(mpsc::SendError(waiter)));
    assert!(matches!(refused, Err(QueueClosed)));
}
