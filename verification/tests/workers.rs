use std::sync::atomic::{AtomicUsize, Ordering};

use session_launch::slots::WorkerLimitReached;
use session_launch::worker::{
    run_in_slot, spawn_bounded_desktop_session_worker, thread_started, worker_with_slot,
    WorkerError,
};

fn text(text: &str) -> String {
    text.to_string()
}

#[test]
fn a_full_counter_is_told_in_two_sentences() {
    let counter = AtomicUsize::new(12);
    let error = spawn_bounded_desktop_session_worker(&counter, text("w"), 7).err().unwrap();
    let refusal = WorkerLimitReached { limit: 12, in_use: 12 };
    assert_eq!(error, WorkerError::Limit { name: text("w"), refusal });
    assert_eq!(
        error.messages(),
        ["failed to start w", "desktop session worker limit reached (12)"]
    );
    assert_eq!(counter.load(Ordering::Relaxed), 12);
}

#[test]
fn a_refused_thread_is_told_under_its_name() {
    let error = thread_started(text("any name"), Err(text("out of memory"))).unwrap_err();
    assert_eq!(error.messages(), ["failed to spawn any name", "out of memory"]);
    assert_eq!(thread_started(text("any name"), Ok(())), Ok(()));
}

#[test]
fn a_refused_thread_leaks_no_slot() {
    let counter = AtomicUsize::new(4);
    let worker = spawn_bounded_desktop_session_worker(&counter, text("w"), ()).ok().unwrap();
    assert_eq!(counter.load(Ordering::Relaxed), 5);
    drop(worker);
    assert_eq!(counter.load(Ordering::Relaxed), 4);
}

#[test]
fn a_worker_has_its_name_its_job_and_its_slot() {
    let counter = AtomicUsize::new(11);
    let worker = spawn_bounded_desktop_session_worker(&counter, text("w"), "job").ok().unwrap();
    assert_eq!(worker.name, "w");
    assert_eq!(worker.job, "job");
    assert_eq!(worker.permit.workers_before(), 11);
    assert!(spawn_bounded_desktop_session_worker(&counter, text("v"), "job").is_err());
}

#[test]
fn a_refusal_is_told_under_the_name_of_its_worker() {
    let refusal = WorkerLimitReached { limit: 3, in_use: 5 };
    let error = worker_with_slot(text("w"), (), Err(refusal)).err();
    assert_eq!(error, Some(WorkerError::Limit { name: text("w"), refusal }));
}

#[test]
fn the_slot_is_held_while_the_job_runs() {
    let counter = AtomicUsize::new(0);
    let worker = spawn_bounded_desktop_session_worker(&counter, text("w"), 5).ok().unwrap();
    let mut seen = None;
    let permit = run_in_slot(worker, |job| seen = Some((job, counter.load(Ordering::Relaxed))));
    assert_eq!(seen, Some((5, 1)));
    assert_eq!(permit.workers_before(), 0);
    assert_eq!(counter.load(Ordering::Relaxed), 1);
    drop(permit);
    assert_eq!(counter.load(Ordering::Relaxed), 0);
}
