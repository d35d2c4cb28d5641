use session_launch::control::{
    cycle_model, cycle_reasoning_effort, load_model_catalog, set_model, AwaitedReply,
    ControlAction, ControlJob, ControlReply, ControlStep,
};
use session_launch::event::DesktopSessionEvent;
use session_launch::request::ServerRequest;
use session_launch::session::FailureContext;

fn text(text: &str) -> String {
    text.to_string()
}

fn advance(step: ControlStep, reply: ControlReply) -> ControlStep {
    assert!(step.state.accepts(&reply));
    let next = step.state.step(reply);
    assert!(next.events.is_empty());
    next
}

fn subscribed(step: ControlStep, target: Option<&str>, next_request_id: u64) -> ControlStep {
    assert_eq!(step.action, ControlAction::EnsureServerRunning);
    let step = advance(step, ControlReply::Done);
    assert_eq!(step.action, ControlAction::Connect { timeout_ms: 10_000 });
    let step = advance(step, ControlReply::Done);
    assert_eq!(step.action, ControlAction::CloneWriter);
    let step = advance(step, ControlReply::Done);
    assert_eq!(
        step.action,
        ControlAction::SubscribeAndEstablish {
            next_request_id: 1,
            target_session_id: target.map(text),
        }
    );
    advance(step, ControlReply::Subscribed { next_request_id })
}

fn answered(step: ControlStep, awaited: AwaitedReply, request_id: u64) {
    let step = advance(step, ControlReply::Done);
    assert_eq!(step.action, ControlAction::Await { awaited, timeout_ms: 10_000, request_id });
    let step = advance(step, ControlReply::Done);
    assert_eq!(step.action, ControlAction::Finish);
    for reply in [
        ControlReply::Done,
        ControlReply::Failed,
        ControlReply::Subscribed { next_request_id: 1 },
        ControlReply::History { reasoning_effort: None },
    ] {
        assert!(!step.state.accepts(&reply));
    }
}

#[test]
fn a_model_is_cycled() {
    let step = cycle_model(-1, Some(text("s1")));
    assert_eq!(step.events, [DesktopSessionEvent::Status(text("switching model"))]);
    let step = subscribed(step, Some("s1"), 3);
    assert_eq!(
        step.action,
        ControlAction::Send { request: ServerRequest::CycleModel { id: 3, direction: -1 } }
    );
    answered(step, AwaitedReply::ModelChanged, 3);
}

#[test]
fn the_catalog_is_loaded() {
    let step = load_model_catalog(None);
    assert_eq!(step.events, [DesktopSessionEvent::Status(text("loading models"))]);
    let step = subscribed(step, None, 2);
    assert_eq!(
        step.action,
        ControlAction::Send { request: ServerRequest::GetModelCatalog { id: 2 } }
    );
    answered(step, AwaitedReply::ModelCatalog, 2);
}

#[test]
fn a_model_is_set() {
    let step = set_model(text("m"), None);
    assert_eq!(step.events, [DesktopSessionEvent::Status(text("switching model"))]);
    let step = subscribed(step, None, 2);
    assert_eq!(
        step.action,
        ControlAction::Send { request: ServerRequest::SetModel { id: 2, model: text("m") } }
    );
    answered(step, AwaitedReply::ModelChanged, 2);
}

#[test]
fn an_effort_is_cycled_from_the_one_in_the_history() {
    let step = cycle_reasoning_effort(1, Some(text("s2")));
    assert_eq!(step.events, [DesktopSessionEvent::Status(text("switching reasoning effort"))]);
    let step = subscribed(step, Some("s2"), 4);
    assert_eq!(step.action, ControlAction::Send { request: ServerRequest::GetHistory { id: 4 } });
    let step = advance(step, ControlReply::Done);
    assert_eq!(step.action, ControlAction::ReadHistory { timeout_ms: 10_000, request_id: 4 });
    let step = advance(step, ControlReply::History { reasoning_effort: Some(text("low")) });
    assert_eq!(
        step.action,
        ControlAction::Send {
            request: ServerRequest::SetReasoningEffort { id: 5, effort: text("medium") },
        }
    );
    answered(step, AwaitedReply::ReasoningEffortChanged, 5);
}

#[test]
fn a_job_begins_as_its_function_does() {
    let target = Some(text("s"));
    assert_eq!(
        ControlJob::CycleModel { direction: 1 }.begin(target.clone()),
        cycle_model(1, target.clone())
    );
    assert_eq!(ControlJob::LoadModelCatalog.begin(None), load_model_catalog(None));
    assert_eq!(
        ControlJob::SetModel { model: text("m") }.begin(target.clone()),
        set_model(text("m"), target.clone())
    );
    assert_eq!(
        ControlJob::CycleReasoningEffort { direction: 0 }.begin(target.clone()),
        cycle_reasoning_effort(0, target)
    );
}

#[test]
fn a_failure_ends_the_run() {
    let step = advance(cycle_model(1, None), ControlReply::Failed);
    assert_eq!(step.action, ControlAction::Fail { context: None });
    assert!(!step.state.accepts(&ControlReply::Done));
    let step = advance(cycle_model(1, None), ControlReply::Done);
    let step = advance(step, ControlReply::Done);
    let step = advance(step, ControlReply::Failed);
    assert_eq!(step.action, ControlAction::Fail { context: Some(FailureContext::CloneWriter) });
}

#[test]
fn a_reply_that_answers_nothing_is_not_accepted() {
    let step = cycle_reasoning_effort(1, None);
    assert!(!step.state.accepts(&ControlReply::History { reasoning_effort: None }));
    assert!(!step.state.accepts(&ControlReply::Subscribed { next_request_id: 1 }));
    let step = subscribed(step, None, u64::MAX);
    assert!(!step.state.accepts(&ControlReply::Done));
    assert!(step.state.accepts(&ControlReply::Failed));
}
