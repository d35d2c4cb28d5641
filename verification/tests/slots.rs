use std::sync::atomic::{AtomicUsize, Ordering};

use session_launch::slots::{
    next_worker_count, try_acquire_desktop_session_worker_slot, WorkerLimitReached,
    DESKTOP_SESSION_WORKER_LIMIT,
};

#[test]
fn the_limit_is_twelve_workers() {
    assert_eq!(DESKTOP_SESSION_WORKER_LIMIT, 12);
}

#[test]
fn claims_stop_at_the_limit_and_drops_make_room() {
    let counter = AtomicUsize::new(0);
    let first = try_acquire_desktop_session_worker_slot(&counter, 2).ok().unwrap();
    let second = try_acquire_desktop_session_worker_slot(&counter, 2).ok().unwrap();
    assert_eq!(first.workers_before(), 0);
    assert_eq!(second.workers_before(), 1);
    assert_eq!(counter.load(Ordering::Relaxed), 2);
    let refusal = try_acquire_desktop_session_worker_slot(&counter, 2).err();
    assert_eq!(refusal, Some(WorkerLimitReached { limit: 2, in_use: 2 }));
    assert_eq!(counter.load(Ordering::Relaxed), 2);
    drop(first);
    assert_eq!(counter.load(Ordering::Relaxed), 1);
    let third = try_acquire_desktop_session_worker_slot(&counter, 2).ok().unwrap();
    assert_eq!(third.workers_before(), 1);
    drop(third);
    drop(second);
    assert_eq!(counter.load(Ordering::Relaxed), 0);
}

#[test]
fn a_limit_of_zero_admits_nobody() {
    let counter = AtomicUsize::new(0);
    let refusal = try_acquire_desktop_session_worker_slot(&counter, 0).err();
    assert_eq!(refusal, Some(WorkerLimitReached { limit: 0, in_use: 0 }));
    assert_eq!(counter.load(Ordering::Relaxed), 0);
}

#[test]
fn a_count_past_the_limit_is_left_alone() {
    let counter = AtomicUsize::new(7);
    let refusal = try_acquire_desktop_session_worker_slot(&counter, 3).err();
    assert_eq!(refusal, Some(WorkerLimitReached { limit: 3, in_use: 7 }));
    assert_eq!(counter.load(Ordering::Relaxed), 7);
}

#[test]
fn next_count_is_one_more_below_the_limit() {
    assert_eq!(next_worker_count(0, 1), Some(1));
    assert_eq!(next_worker_count(11, 12), Some(12));
    assert_eq!(next_worker_count(12, 12), None);
    assert_eq!(next_worker_count(usize::MAX, usize::MAX), None);
}

#[test]
fn a_refusal_names_the_limit() {
    let counter = AtomicUsize::new(0);
    let refusal = try_acquire_desktop_session_worker_slot(&counter, 0).err().unwrap();
    assert_eq!(refusal.message(), "desktop session worker limit reached (0)");
    let refusal = WorkerLimitReached { limit: 12, in_use: 12 };
    assert_eq!(refusal.message(), "desktop session worker limit reached (12)");
}

#[test]
fn as_many_claims_succeed_as_slots_are_free() {
    let counter = AtomicUsize::new(0);
    let held = try_acquire_desktop_session_worker_slot(&counter, 5).ok().unwrap();
    let mut permits = Vec::new();
    for _ in 0..9 {
        permits.extend(try_acquire_desktop_session_worker_slot(&counter, 5).ok());
    }
    assert_eq!(permits.len(), 4);
    assert_eq!(counter.load(Ordering::Relaxed), 5);
    let before: Vec<usize> = permits.iter().map(|permit| permit.workers_before()).collect();
    assert_eq!(before, [1, 2, 3, 4]);
    drop(permits);
    drop(held);
    assert_eq!(counter.load(Ordering::Relaxed), 0);
}
