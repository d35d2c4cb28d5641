use session_launch::event::DesktopSessionEvent;
use session_launch::platform::{Platform, ServerFeature};
use session_launch::request::ServerRequest;
use session_launch::session::{
    run_server_session, DrainOutcome, FailureContext, SessionAction, SessionFailure, SessionReply,
    SessionState, SessionStep, SERVER_CONNECT_RETRY_DELAY_MS, SERVER_START_TIMEOUT_MS,
};

type Step = SessionStep<String>;
type Reply = SessionReply<String>;

fn text(text: &str) -> String {
    text.to_string()
}

fn status(status: &str) -> DesktopSessionEvent {
    DesktopSessionEvent::Status(text(status))
}

fn images() -> Vec<(String, String)> {
    vec![(text("image/png"), text("AAAA"))]
}

fn advance(step: Step, reply: Reply) -> Step {
    assert!(step.state.accepts(&reply));
    step.state.step(reply)
}

fn started(target: Option<&str>) -> Step {
    let target = target.map(text);
    run_server_session(Platform::Unix, target, text("hello"), images()).unwrap()
}

fn drained(outcome: DrainOutcome, next_request_id: u64) -> Reply {
    SessionReply::Drained { outcome, next_request_id }
}

fn established(session_id: &str, next_request_id: u64) -> Reply {
    SessionReply::Established { session_id: text(session_id), next_request_id }
}

/// A session "s1" that has sent its message as request 3 and reads events.
fn draining() -> Step {
    let mut step = started(None);
    for _ in 0..4 {
        step = advance(step, SessionReply::Done);
    }
    step = advance(step, established("s1", 3));
    step = advance(step, SessionReply::Done);
    advance(step, SessionReply::Located { socket_path: text("/run/a") })
}

/// The session after a reconnect, at the point where the server names it.
fn reestablishing() -> Step {
    let mut step = advance(draining(), drained(DrainOutcome::Disconnected, 9));
    for _ in 0..3 {
        step = advance(step, SessionReply::Done);
    }
    step
}

#[test]
fn the_timeouts_are_kept() {
    assert_eq!(SERVER_START_TIMEOUT_MS, 10_000);
    assert_eq!(SERVER_CONNECT_RETRY_DELAY_MS, 50);
}

#[test]
fn a_session_sends_its_message_and_finishes() {
    let step = started(Some("s0"));
    assert_eq!(step.events, [status("starting shared server")]);
    assert_eq!(step.action, SessionAction::EnsureServerRunning);
    let step = advance(step, SessionReply::Done);
    assert_eq!(step.events, [status("connecting to shared server")]);
    assert_eq!(step.action, SessionAction::Connect { timeout_ms: 10_000 });
    let step = advance(step, SessionReply::Done);
    assert!(step.events.is_empty());
    assert_eq!(step.action, SessionAction::CloneWriter);
    let step = advance(step, SessionReply::Done);
    assert_eq!(
        step.action,
        SessionAction::Subscribe { request_id: 1, target_session_id: Some(text("s0")) }
    );
    let step = advance(step, SessionReply::Done);
    assert_eq!(
        step.action,
        SessionAction::Establish { subscribe_request_id: 1, next_request_id: 2 }
    );
    let step = advance(step, established("s0", 5));
    assert_eq!(
        step.events,
        [
            DesktopSessionEvent::SessionStarted { session_id: text("s0") },
            status("sending message"),
        ]
    );
    assert_eq!(
        step.action,
        SessionAction::Send {
            request: ServerRequest::Message { id: 5, content: text("hello"), images: images() },
        }
    );
    let step = advance(step, SessionReply::Done);
    assert_eq!(step.action, SessionAction::LocateSocket);
    assert_eq!(step.state.socket_path(), None);
    let step = advance(step, SessionReply::Located { socket_path: text("/run/a") });
    assert_eq!(step.action, SessionAction::Drain { next_request_id: 6, message_request_id: 5 });
    assert_eq!(step.state.socket_path(), Some(&text("/run/a")));
    let step = advance(step, drained(DrainOutcome::Terminal, 8));
    assert!(step.events.is_empty());
    assert_eq!(step.action, SessionAction::Finish { session_id: text("s0") });
    assert_eq!(step.state, SessionState::Finished { session_id: text("s0") });
}

#[test]
fn a_lost_connection_is_taken_up_again() {
    let step = advance(draining(), drained(DrainOutcome::Disconnected, 9));
    assert_eq!(step.events, [status("server disconnected, reconnecting")]);
    assert_eq!(step.action, SessionAction::Reconnect { timeout_ms: 10_000 });
    assert_eq!(step.state.socket_path(), Some(&text("/run/a")));
    let step = advance(step, SessionReply::Done);
    assert_eq!(step.action, SessionAction::CloneWriter);
    let step = advance(step, SessionReply::Done);
    assert_eq!(
        step.action,
        SessionAction::Subscribe { request_id: 9, target_session_id: Some(text("s1")) }
    );
    let step = advance(step, SessionReply::Done);
    assert_eq!(
        step.action,
        SessionAction::Establish { subscribe_request_id: 9, next_request_id: 10 }
    );
    let step = advance(step, established("s1", 11));
    assert_eq!(step.events, [DesktopSessionEvent::Reloaded { session_id: text("s1") }]);
    assert_eq!(step.action, SessionAction::Drain { next_request_id: 11, message_request_id: 3 });
    let step = advance(step, drained(DrainOutcome::Terminal, 11));
    assert_eq!(step.action, SessionAction::Finish { session_id: text("s1") });
}

#[test]
fn a_reload_without_a_new_socket_stays_on_the_old_one() {
    let step = advance(draining(), drained(DrainOutcome::Reloading { new_socket: None }, 4));
    assert_eq!(step.events, [status("server reloading, reconnecting")]);
    assert_eq!(step.action, SessionAction::Reconnect { timeout_ms: 10_000 });
    assert_eq!(step.state.socket_path(), Some(&text("/run/a")));
}

#[test]
fn a_reload_moves_to_the_socket_that_was_checked() {
    let reloading = DrainOutcome::Reloading { new_socket: Some(text("/run/b")) };
    let step = advance(draining(), drained(reloading, 4));
    assert!(step.events.is_empty());
    assert_eq!(step.action, SessionAction::CheckReloadSocket { new_socket: text("/run/b") });
    assert_eq!(step.state.socket_path(), Some(&text("/run/a")));
    let step = advance(step, SessionReply::Located { socket_path: text("/run/b") });
    assert_eq!(step.events, [status("server reloading, reconnecting")]);
    assert_eq!(step.action, SessionAction::Reconnect { timeout_ms: 10_000 });
    assert_eq!(step.state.socket_path(), Some(&text("/run/b")));
}

#[test]
fn a_refused_socket_fails_the_session() {
    let reloading = DrainOutcome::Reloading { new_socket: Some(text("/etc/x")) };
    let step = advance(draining(), drained(reloading, 4));
    let step = advance(step, SessionReply::Failed);
    assert!(step.events.is_empty());
    let failure = SessionFailure::Action { context: None };
    assert_eq!(failure.message(), None);
    assert_eq!(step.action, SessionAction::Fail { failure });
}

#[test]
fn an_answer_for_another_session_fails_the_session() {
    let step = advance(reestablishing(), established("s2", 12));
    assert!(step.events.is_empty());
    assert_eq!(step.state, SessionState::Failed);
    let failure =
        SessionFailure::UnexpectedSession { expected: text("s1"), got: text("s2") };
    assert_eq!(
        failure.message(),
        Some(text(
            "jcode server reconnected to unexpected session id: expected s1, got s2"
        ))
    );
    assert_eq!(step.action, SessionAction::Fail { failure });
}

#[test]
fn a_failed_clone_has_its_context() {
    let mut step = started(None);
    step = advance(step, SessionReply::Done);
    step = advance(step, SessionReply::Done);
    let step = advance(step, SessionReply::Failed);
    let failure = SessionFailure::Action { context: Some(FailureContext::CloneWriter) };
    assert_eq!(failure.message(), Some(text("failed to clone server socket writer")));
    assert_eq!(step.action, SessionAction::Fail { failure });
    let step = advance(draining(), drained(DrainOutcome::Disconnected, 9));
    let step = advance(step, SessionReply::Done);
    let step = advance(step, SessionReply::Failed);
    let failure =
        SessionFailure::Action { context: Some(FailureContext::CloneReconnectedWriter) };
    assert_eq!(failure.message(), Some(text("failed to clone reconnected server socket writer")));
    assert_eq!(step.action, SessionAction::Fail { failure });
}

#[test]
fn an_ended_session_accepts_nothing() {
    let finished = advance(draining(), drained(DrainOutcome::Terminal, 4)).state;
    let failed = advance(draining(), SessionReply::Failed).state;
    for state in [finished, failed] {
        for reply in [
            SessionReply::Done,
            SessionReply::Failed,
            established("s1", 4),
            SessionReply::Located { socket_path: text("/run/a") },
            drained(DrainOutcome::Terminal, 4),
        ] {
            assert!(!state.accepts(&reply));
        }
    }
}

#[test]
fn ids_that_run_out_are_not_accepted() {
    let mut step = started(None);
    for _ in 0..4 {
        step = advance(step, SessionReply::Done);
    }
    let step = advance(step, established("s1", u64::MAX));
    assert!(!step.state.accepts(&SessionReply::Done));
    assert!(step.state.accepts(&SessionReply::Failed));
    let mut step = advance(draining(), drained(DrainOutcome::Disconnected, u64::MAX));
    step = advance(step, SessionReply::Done);
    step = advance(step, SessionReply::Done);
    assert!(!step.state.accepts(&SessionReply::Done));
}

#[test]
fn finding_the_socket_cannot_fail() {
    let mut step = started(None);
    for _ in 0..4 {
        step = advance(step, SessionReply::Done);
    }
    step = advance(step, established("s1", 3));
    step = advance(step, SessionReply::Done);
    assert!(!step.state.accepts(&SessionReply::Failed));
}

#[test]
fn sessions_need_the_server() {
    let refused =
        run_server_session::<String>(Platform::Other, None, text("hello"), Vec::new());
    let feature = refused.unwrap_err();
    assert_eq!(feature, ServerFeature::Sessions);
    assert_eq!(
        feature.missing_message(),
        "desktop server sessions are not implemented on this platform yet"
    );
}

#[test]
fn the_message_is_sent_once_and_ids_increase() {
    let mut step = started(None);
    let mut replies = vec![
        SessionReply::Done,
        SessionReply::Done,
        SessionReply::Done,
        SessionReply::Done,
        established("s1", 2),
        SessionReply::Done,
        SessionReply::Located { socket_path: text("/run/a") },
    ];
    for id in [7, 20] {
        replies.push(drained(DrainOutcome::Disconnected, id));
        replies.extend([SessionReply::Done, SessionReply::Done, SessionReply::Done]);
        replies.push(established("s1", id + 1));
    }
    replies.push(drained(DrainOutcome::Terminal, 30));
    let mut sent = 0;
    let mut ids = Vec::new();
    for reply in replies {
        step = advance(step, reply);
        match &step.action {
            SessionAction::Send { request } => {
                sent += 1;
                ids.push(request.id());
            }
            SessionAction::Subscribe { request_id, .. } => ids.push(*request_id),
            _ => {}
        }
    }
    assert_eq!(sent, 1);
    assert_eq!(ids, [1, 2, 7, 20]);
    assert_eq!(step.action, SessionAction::Finish { session_id: text("s1") });
}
