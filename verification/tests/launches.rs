use std::sync::atomic::{AtomicUsize, Ordering};
use std::sync::mpsc;

use session_launch::channel::send_desktop_event;
use session_launch::control::ControlJob;
use session_launch::event::DesktopSessionEvent;
use session_launch::handle::DesktopSessionCommand;
use session_launch::launch::{
    control_outcome, launch_new_session, launch_resume_session, send_message_to_session,
    session_outcome, spawn_cycle_model, spawn_cycle_reasoning_effort,
    spawn_fresh_server_session, spawn_load_model_catalog, spawn_message_to_session,
    spawn_set_model, worker_started, ControlStart, LaunchError, WorkerKind,
};
use session_launch::platform::Platform;
use session_launch::session::SessionDraft;
use session_launch::slots::{WorkerLimitReached, DESKTOP_SESSION_WORKER_LIMIT};
use session_launch::worker::{thread_started, WorkerError};

fn text(text: &str) -> String {
    text.to_string()
}

fn image() -> Vec<(String, String)> {
    vec![(text("image/png"), text("AAAA"))]
}

fn full(kind: WorkerKind) -> LaunchError {
    let refusal = WorkerLimitReached { limit: 12, in_use: 12 };
    LaunchError::Worker { kind, error: WorkerError::Limit { name: text(kind.name()), refusal } }
}

#[test]
fn a_fresh_session_needs_words_or_images() {
    let counter = AtomicUsize::new(0);
    let (event_tx, _events) = mpsc::channel();
    let refused = spawn_fresh_server_session(&counter, text(" \n"), Vec::new(), event_tx.clone());
    assert_eq!(refused.err(), Some(LaunchError::EmptyDraft));
    assert_eq!(counter.load(Ordering::Relaxed), 0);
    let images_only = spawn_fresh_server_session(&counter, text(" "), image(), event_tx.clone());
    let (_, worker) = images_only.ok().unwrap();
    assert_eq!(worker.job.draft.images, image());
    drop(worker);
    let words_only = spawn_fresh_server_session(&counter, text("hi"), Vec::new(), event_tx);
    assert!(words_only.is_ok());
}

#[test]
fn a_fresh_session_worker_carries_the_draft_and_the_channels() {
    let counter = AtomicUsize::new(3);
    let (event_tx, events) = mpsc::channel();
    let launched = spawn_fresh_server_session(&counter, text("hi"), image(), event_tx);
    let (handle, worker) = launched.ok().unwrap();
    assert_eq!(counter.load(Ordering::Relaxed), 4);
    assert_eq!(worker.job.kind, WorkerKind::FreshSession);
    assert_eq!(worker.name, "jcode-desktop-fresh-session");
    assert_eq!(worker.permit.workers_before(), 3);
    assert_eq!(
        worker.job.draft,
        SessionDraft { target_session_id: None, message: text("hi"), images: image() }
    );
    assert!(worker.job.held_handle.is_none());
    assert_eq!(handle.cancel(), Ok(()));
    assert_eq!(worker.job.command_rx.try_recv(), Ok(DesktopSessionCommand::Cancel));
    let event = session_outcome(Err(text("broken"))).unwrap();
    assert_eq!(send_desktop_event(&worker.job.event_tx, event), None);
    assert_eq!(events.try_recv(), Ok(DesktopSessionEvent::Error(text("broken"))));
    drop(worker);
    assert_eq!(counter.load(Ordering::Relaxed), 3);
    assert!(handle.cancel().is_err());
}

#[test]
fn a_message_goes_to_the_session_that_was_checked() {
    let counter = AtomicUsize::new(0);
    let (event_tx, _events) = mpsc::channel();
    let refused = spawn_message_to_session(
        &counter,
        text("../x"),
        text("hi"),
        image(),
        event_tx.clone(),
        Err(vec![text("bad id")]),
    );
    let invalid = LaunchError::InvalidSessionId { reasons: vec![text("bad id")] };
    assert_eq!(refused.err(), Some(invalid));
    let empty = spawn_message_to_session(
        &counter,
        text("s1"),
        text("\t"),
        Vec::new(),
        event_tx.clone(),
        Ok(()),
    );
    assert_eq!(empty.err(), Some(LaunchError::EmptyDraft));
    let launched =
        spawn_message_to_session(&counter, text("s1"), text("hi"), Vec::new(), event_tx, Ok(()));
    let (_handle, worker) = launched.ok().unwrap();
    assert_eq!(worker.name, "jcode-desktop-session-message");
    assert_eq!(
        worker.job.draft,
        SessionDraft { target_session_id: Some(text("s1")), message: text("hi"), images: vec![] }
    );
    assert!(worker.job.event_tx.is_some());
}

#[test]
fn an_invalid_id_is_reported_before_an_empty_message() {
    let counter = AtomicUsize::new(0);
    let refused = send_message_to_session(&counter, "", "title", "", Err(vec![text("no id")]));
    assert_eq!(refused.err(), Some(LaunchError::InvalidSessionId { reasons: vec![text("no id")] }));
}

#[test]
fn a_workspace_message_reports_to_nobody() {
    let counter = AtomicUsize::new(0);
    let empty = send_message_to_session(&counter, "s2", "title", " ", Ok(()));
    assert_eq!(empty.err(), Some(LaunchError::EmptyDraft));
    let worker = send_message_to_session(&counter, "s2", "title", "do it", Ok(())).ok().unwrap();
    assert_eq!(worker.name, "jcode-desktop-workspace-message");
    assert_eq!(
        worker.job.draft,
        SessionDraft {
            target_session_id: Some(text("s2")),
            message: text("do it"),
            images: Vec::new(),
        }
    );
    assert!(worker.job.event_tx.is_none());
    assert_eq!(worker.job.command_rx.try_recv(), Err(mpsc::TryRecvError::Empty));
    assert_eq!(worker.job.kind, WorkerKind::WorkspaceMessage);
    let held = worker.job.held_handle;
    assert_eq!(held.as_ref().unwrap().cancel(), Ok(()));
    assert_eq!(worker.job.command_rx.try_recv(), Ok(DesktopSessionCommand::Cancel));
}

#[test]
fn no_worker_starts_past_the_limit() {
    let counter = AtomicUsize::new(DESKTOP_SESSION_WORKER_LIMIT);
    let (event_tx, _events) = mpsc::channel();
    let fresh = spawn_fresh_server_session(&counter, text("hi"), Vec::new(), event_tx.clone());
    assert_eq!(fresh.err(), Some(full(WorkerKind::FreshSession)));
    let message = spawn_message_to_session(
        &counter,
        text("s"),
        text("hi"),
        Vec::new(),
        event_tx.clone(),
        Ok(()),
    );
    assert_eq!(message.err(), Some(full(WorkerKind::SessionMessage)));
    let workspace = send_message_to_session(&counter, "s", "t", "hi", Ok(()));
    assert_eq!(workspace.err(), Some(full(WorkerKind::WorkspaceMessage)));
    let unix = Platform::Unix;
    assert_eq!(
        spawn_cycle_model(unix, &counter, 1, None, event_tx.clone()).err(),
        Some(full(WorkerKind::CycleModel))
    );
    assert_eq!(
        spawn_cycle_reasoning_effort(unix, &counter, 1, None, event_tx.clone()).err(),
        Some(full(WorkerKind::CycleReasoningEffort))
    );
    assert_eq!(
        spawn_load_model_catalog(unix, &counter, None, event_tx.clone()).err(),
        Some(full(WorkerKind::LoadModelCatalog))
    );
    assert_eq!(
        spawn_set_model(unix, &counter, text("m"), None, event_tx).err(),
        Some(full(WorkerKind::SetModel))
    );
    assert_eq!(counter.load(Ordering::Relaxed), DESKTOP_SESSION_WORKER_LIMIT);
}

#[test]
fn the_twelfth_worker_starts_and_the_thirteenth_does_not() {
    let counter = AtomicUsize::new(0);
    let mut workers = Vec::new();
    for _ in 0..12 {
        workers.push(send_message_to_session(&counter, "s", "t", "hi", Ok(())).ok().unwrap());
    }
    assert!(send_message_to_session(&counter, "s", "t", "hi", Ok(())).is_err());
    workers.pop();
    assert!(send_message_to_session(&counter, "s", "t", "hi", Ok(())).is_ok());
}

#[test]
fn control_workers_carry_their_jobs() {
    let counter = AtomicUsize::new(0);
    let (event_tx, _events) = mpsc::channel();
    let unix = Platform::Unix;
    let target = Some(text("s3"));
    let started = vec![
        (
            spawn_cycle_model(unix, &counter, -1, target.clone(), event_tx.clone()),
            "jcode-desktop-cycle-model",
            ControlJob::CycleModel { direction: -1 },
        ),
        (
            spawn_cycle_reasoning_effort(unix, &counter, 1, target.clone(), event_tx.clone()),
            "jcode-desktop-cycle-effort",
            ControlJob::CycleReasoningEffort { direction: 1 },
        ),
        (
            spawn_load_model_catalog(unix, &counter, target.clone(), event_tx.clone()),
            "jcode-desktop-load-model-catalog",
            ControlJob::LoadModelCatalog,
        ),
        (
            spawn_set_model(unix, &counter, text("m"), target.clone(), event_tx.clone()),
            "jcode-desktop-set-model",
            ControlJob::SetModel { model: text("m") },
        ),
    ];
    assert_eq!(counter.load(Ordering::Relaxed), 4);
    for (outcome, name, job) in started {
        match outcome {
            Ok(ControlStart::Worker(worker)) => {
                assert_eq!(worker.name, name);
                assert_eq!(worker.job.job, job);
                assert_eq!(worker.job.target_session_id, target);
                assert_eq!(worker.job.kind.name(), name);
            }
            _ => panic!("{name}"),
        }
    }
    assert_eq!(counter.load(Ordering::Relaxed), 0);
}

#[test]
fn elsewhere_the_missing_feature_is_reported() {
    let counter = AtomicUsize::new(DESKTOP_SESSION_WORKER_LIMIT);
    let (event_tx, events) = mpsc::channel();
    let other = Platform::Other;
    let reports = vec![
        (
            spawn_cycle_model(other, &counter, 1, None, event_tx.clone()),
            "desktop model switching is not implemented on this platform yet",
        ),
        (
            spawn_cycle_reasoning_effort(other, &counter, 1, None, event_tx.clone()),
            "desktop reasoning effort switching is not implemented on this platform yet",
        ),
        (
            spawn_load_model_catalog(other, &counter, None, event_tx.clone()),
            "desktop model catalog loading is not implemented on this platform yet",
        ),
        (
            spawn_set_model(other, &counter, text("m"), None, event_tx.clone()),
            "desktop model switching is not implemented on this platform yet",
        ),
    ];
    for (outcome, error) in reports {
        assert!(matches!(outcome, Ok(ControlStart::Unsupported { undelivered: None })));
        assert_eq!(
            events.try_recv(),
            Ok(DesktopSessionEvent::ModelCatalogError { error: text(error) })
        );
    }
    drop(events);
    let lost = spawn_cycle_model(other, &counter, 1, None, event_tx);
    assert!(matches!(
        lost,
        Ok(ControlStart::Unsupported { undelivered: Some("model_catalog_error") })
    ));
}

#[test]
fn errors_are_told_from_the_outside_in() {
    let invalid = LaunchError::InvalidSessionId { reasons: vec![text("bad id"), text("too long")] };
    assert_eq!(
        invalid.messages(),
        ["refusing to send to invalid session id", "bad id", "too long"]
    );
    let unexplained = LaunchError::InvalidSessionId { reasons: Vec::new() };
    assert_eq!(unexplained.messages(), ["refusing to send to invalid session id"]);
    assert_eq!(LaunchError::EmptyDraft.messages(), ["empty draft message"]);
    assert_eq!(
        full(WorkerKind::FreshSession).messages(),
        [
            "failed to spawn desktop session worker",
            "failed to start jcode-desktop-fresh-session",
            "desktop session worker limit reached (12)",
        ]
    );
    let started = thread_started(text("jcode-desktop-set-model"), Err(text("EAGAIN")));
    let no_thread = worker_started(WorkerKind::SetModel, started);
    assert_eq!(
        no_thread.unwrap_err().messages(),
        [
            "failed to spawn desktop set model worker",
            "failed to spawn jcode-desktop-set-model",
            "EAGAIN",
        ]
    );
    assert_eq!(worker_started(WorkerKind::SetModel, Ok(())), Ok(()));
}

#[test]
fn a_failed_run_is_reported_and_a_successful_one_is_not() {
    assert_eq!(session_outcome(Ok(())), None);
    assert_eq!(session_outcome(Err(text("e"))), Some(DesktopSessionEvent::Error(text("e"))));
    assert_eq!(control_outcome(Ok(())), None);
    assert_eq!(
        control_outcome(Err(text("e"))),
        Some(DesktopSessionEvent::ModelCatalogError { error: text("e") })
    );
}

#[test]
fn each_worker_has_its_sentence() {
    let sentences = [
        (WorkerKind::WorkspaceMessage, "failed to spawn desktop workspace message worker"),
        (WorkerKind::FreshSession, "failed to spawn desktop session worker"),
        (WorkerKind::SessionMessage, "failed to spawn desktop session worker"),
        (WorkerKind::CycleModel, "failed to spawn desktop model switch worker"),
        (WorkerKind::CycleReasoningEffort, "failed to spawn desktop reasoning effort worker"),
        (WorkerKind::LoadModelCatalog, "failed to spawn desktop model catalog worker"),
        (WorkerKind::SetModel, "failed to spawn desktop set model worker"),
    ];
    for (kind, sentence) in sentences {
        assert_eq!(kind.failure_message(), sentence);
    }
}

#[test]
fn a_resumed_session_gets_a_terminal_of_its_own() {
    let launch = launch_resume_session("s4", "short title");
    assert_eq!(launch.title, "jcode · short title");
    assert_eq!(launch.arguments, ["--resume", "s4"]);
    assert_eq!(launch.command_line, "jcode --resume s4");
}

#[test]
fn a_new_session_gets_a_terminal_of_its_own() {
    let launch = launch_new_session();
    assert_eq!(launch.title, "jcode · new session");
    assert_eq!(launch.arguments, ["--fresh-spawn"]);
    assert_eq!(launch.command_line, "jcode");
}

#[test]
fn a_command_stays_with_the_launch_it_was_given_to() {
    let counter = AtomicUsize::new(0);
    let (event_tx, _events) = mpsc::channel();
    let first = spawn_fresh_server_session(&counter, text("a"), Vec::new(), event_tx.clone());
    let second = spawn_fresh_server_session(&counter, text("b"), Vec::new(), event_tx);
    let (handle, worker) = first.ok().unwrap();
    let (_other_handle, other_worker) = second.ok().unwrap();
    assert_eq!(handle.cancel(), Ok(()));
    assert_eq!(other_worker.job.command_rx.try_recv(), Err(mpsc::TryRecvError::Empty));
    assert_eq!(worker.job.command_rx.try_recv(), Ok(DesktopSessionCommand::Cancel));
}
