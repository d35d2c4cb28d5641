use session_launch::control::ControlJob;
use session_launch::launch::WorkerKind;
use session_launch::log::{control_failure_line, session_failure_line, LOGGED_MODEL_LIMIT};

#[test]
fn a_failed_session_worker_is_logged_with_its_session() {
    assert_eq!(
        session_failure_line(WorkerKind::WorkspaceMessage, Some("s1"), "no server"),
        "jcode-desktop: workspace server message failed session_id=s1: no server"
    );
    assert_eq!(
        session_failure_line(WorkerKind::FreshSession, None, "no server: refused"),
        "jcode-desktop: fresh server session failed: no server: refused"
    );
    assert_eq!(
        session_failure_line(WorkerKind::SessionMessage, Some("s2"), "gone"),
        "jcode-desktop: server session message failed session_id=s2: gone"
    );
}

#[test]
fn a_failed_request_is_logged_with_what_it_was_given() {
    assert_eq!(
        control_failure_line(&ControlJob::CycleModel { direction: -1 }, Some("s3"), "gone"),
        "jcode-desktop: model cycle failed direction=-1 target_session=s3: gone"
    );
    assert_eq!(
        control_failure_line(&ControlJob::CycleReasoningEffort { direction: 1 }, None, "gone"),
        "jcode-desktop: reasoning effort cycle failed direction=1 target_session=<current>: gone"
    );
    assert_eq!(
        control_failure_line(&ControlJob::LoadModelCatalog, None, "gone"),
        "jcode-desktop: model catalog load failed target_session=<current>: gone"
    );
    let job = ControlJob::SetModel { model: "m".to_string() };
    assert_eq!(
        control_failure_line(&job, Some("s4"), "gone"),
        "jcode-desktop: set model failed model=m target_session=s4: gone"
    );
}

#[test]
fn the_log_has_a_word_for_each_worker() {
    let errands = [
        (WorkerKind::WorkspaceMessage, "workspace server message"),
        (WorkerKind::FreshSession, "fresh server session"),
        (WorkerKind::SessionMessage, "server session message"),
        (WorkerKind::CycleModel, "model cycle"),
        (WorkerKind::CycleReasoningEffort, "reasoning effort cycle"),
        (WorkerKind::LoadModelCatalog, "model catalog load"),
        (WorkerKind::SetModel, "set model"),
    ];
    for (kind, errand) in errands {
        assert_eq!(kind.errand(), errand);
    }
}

#[test]
fn a_logged_model_name_is_cut_at_256() {
    assert_eq!(LOGGED_MODEL_LIMIT, 256);
}
