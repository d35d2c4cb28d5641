//! One-shot requests about the model: stepping through models and reasoning
//! efforts, choosing a model, listing the models on offer.
//!
//! A run is a state machine. Each step names the next thing to do and the events
//! to report before it; what came of it is the reply that drives the next step.

use vstd::prelude::*;

use crate::effort::{next_effort, next_reasoning_effort};
use crate::event::{event_views, optional_text, DesktopSessionEvent, EventView};
use crate::request::{RequestView, ServerRequest};
use crate::session::{FailureContext, SERVER_START_TIMEOUT_MS};

verus! {

/// What is asked of the server.
#[derive(Clone, Debug, Eq, PartialEq)]
pub enum ControlJob {
    CycleModel { direction: i8 },
    LoadModelCatalog,
    SetModel { model: String },
    CycleReasoningEffort { direction: i8 },
}

/// Which answer ends a run.
#[derive(Clone, Copy, Debug, PartialEq, Eq, Structural)]
pub enum AwaitedReply {
    ModelChanged,
    ModelCatalog,
    ReasoningEffortChanged,
}

/// Where a run stands: what is being done right now.
#[derive(Clone, Debug, Eq, PartialEq)]
pub enum ControlState {
    EnsuringServer { job: ControlJob, target_session_id: Option<String> },
    Connecting { job: ControlJob, target_session_id: Option<String> },
    CloningWriter { job: ControlJob, target_session_id: Option<String> },
    Subscribing { job: ControlJob },
    RequestingHistory { direction: i8, request_id: u64 },
    ReadingHistory { direction: i8, next_request_id: u64 },
    SendingRequest { awaited: AwaitedReply, request_id: u64 },
    AwaitingReply,
    Finished,
    Failed,
}

/// What came of an action.
#[derive(Clone, Debug, Eq, PartialEq)]
pub enum ControlReply {
    /// It was done.
    Done,
    /// The session is established; requests go on from `next_request_id`.
    Subscribed { next_request_id: u64 },
    /// The session's current reasoning effort, if the server reports one.
    History { reasoning_effort: Option<String> },
    /// It failed, with an error that the caller keeps.
    Failed,
}

/// What a run does next.
#[derive(Clone, Debug, Eq, PartialEq)]
pub enum ControlAction {
    /// Start the shared server unless it runs.
    EnsureServerRunning,
    /// Connect to the server's own socket.
    Connect { timeout_ms: u64 },
    /// Clone the connection for writing.
    CloneWriter,
    /// Subscribe, and read until the session is established.
    SubscribeAndEstablish { next_request_id: u64, target_session_id: Option<String> },
    /// Send a request.
    Send { request: ServerRequest },
    /// Read the reasoning effort out of the answer to a history request.
    ReadHistory { timeout_ms: u64, request_id: u64 },
    /// Read until the answer to a request is there.
    Await { awaited: AwaitedReply, timeout_ms: u64, request_id: u64 },
    /// Return.
    Finish,
    /// Return the action's error, under the context if there is one.
    Fail { context: Option<FailureContext> },
}

/// One step: the new state, the events to report, and then what to do.
#[derive(Clone, Debug, Eq, PartialEq)]
pub struct ControlStep {
    pub state: ControlState,
    pub events: Vec<DesktopSessionEvent>,
    pub action: ControlAction,
}

/// A [`ControlAction`] with its strings as character sequences.
pub ghost enum ControlActionView {
    EnsureServerRunning,
    Connect { timeout_ms: u64 },
    CloneWriter,
    SubscribeAndEstablish { next_request_id: u64, target_session_id: Option<Seq<char>> },
    Send { request: RequestView },
    ReadHistory { timeout_ms: u64, request_id: u64 },
    Await { awaited: AwaitedReply, timeout_ms: u64, request_id: u64 },
    Finish,
    Fail { context: Option<FailureContext> },
}

impl View for ControlAction {
    type V = ControlActionView;

    open spec fn view(&self) -> ControlActionView {
        match *self {
            ControlAction::EnsureServerRunning => ControlActionView::EnsureServerRunning,
            ControlAction::Connect { timeout_ms } => ControlActionView::Connect { timeout_ms },
            ControlAction::CloneWriter => ControlActionView::CloneWriter,
            ControlAction::SubscribeAndEstablish { next_request_id, target_session_id } => {
                ControlActionView::SubscribeAndEstablish {
                    next_request_id,
                    target_session_id: optional_text(target_session_id),
                }
            },
            ControlAction::Send { request } => ControlActionView::Send { request: request@ },
            ControlAction::ReadHistory { timeout_ms, request_id } => {
                ControlActionView::ReadHistory { timeout_ms, request_id }
            },
            ControlAction::Await { awaited, timeout_ms, request_id } => ControlActionView::Await {
                awaited,
                timeout_ms,
                request_id,
            },
            ControlAction::Finish => ControlActionView::Finish,
            ControlAction::Fail { context } => ControlActionView::Fail { context },
        }
    }
}

/// A [`ControlStep`] with its events and its action as views.
pub ghost struct ControlStepView {
    pub state: ControlState,
    pub events: Seq<EventView>,
    pub action: ControlActionView,
}

impl View for ControlStep {
    type V = ControlStepView;

    open spec fn view(&self) -> ControlStepView {
        ControlStepView {
            state: self.state,
            events: event_views(self.events@),
            action: self.action@,
        }
    }
}

impl ControlJob {
    /// The status line that opens the run.
    pub open spec fn status(self) -> Seq<char> {
        match self {
            ControlJob::CycleModel { .. } => "switching model"@,
            ControlJob::LoadModelCatalog => "loading models"@,
            ControlJob::SetModel { .. } => "switching model"@,
            ControlJob::CycleReasoningEffort { .. } => "switching reasoning effort"@,
        }
    }
}

/// The reply answers what the state waits for, and the ids do not run out.
pub open spec fn control_accepts(state: ControlState, reply: ControlReply) -> bool {
    match state {
        ControlState::EnsuringServer { .. } => reply is Done || reply is Failed,
        ControlState::Connecting { .. } => reply is Done || reply is Failed,
        ControlState::CloningWriter { .. } => reply is Done || reply is Failed,
        ControlState::Subscribing { .. } => reply is Subscribed || reply is Failed,
        ControlState::RequestingHistory { request_id, .. } => (reply is Done && request_id
            < u64::MAX) || reply is Failed,
        ControlState::ReadingHistory { .. } => reply is History || reply is Failed,
        ControlState::SendingRequest { .. } => reply is Done || reply is Failed,
        ControlState::AwaitingReply => reply is Done || reply is Failed,
        ControlState::Finished => false,
        ControlState::Failed => false,
    }
}

/// The first step of a run.
pub open spec fn control_start(
    job: ControlJob,
    target_session_id: Option<String>,
) -> ControlStepView {
    ControlStepView {
        state: ControlState::EnsuringServer { job, target_session_id },
        events: seq![EventView::Status(job.status())],
        action: ControlActionView::EnsureServerRunning,
    }
}

/// A step that reports nothing.
pub open spec fn quiet_step(state: ControlState, action: ControlActionView) -> ControlStepView {
    ControlStepView { state, events: seq![], action }
}

/// The step that sends the request of `job`, once the session is established.
pub open spec fn request_step(job: ControlJob, request_id: u64) -> ControlStepView {
    match job {
        ControlJob::CycleModel { direction } => quiet_step(
            ControlState::SendingRequest { awaited: AwaitedReply::ModelChanged, request_id },
            ControlActionView::Send {
                request: RequestView::CycleModel { id: request_id, direction },
            },
        ),
        ControlJob::LoadModelCatalog => quiet_step(
            ControlState::SendingRequest { awaited: AwaitedReply::ModelCatalog, request_id },
            ControlActionView::Send { request: RequestView::GetModelCatalog { id: request_id } },
        ),
        ControlJob::SetModel { model } => quiet_step(
            ControlState::SendingRequest { awaited: AwaitedReply::ModelChanged, request_id },
            ControlActionView::Send {
                request: RequestView::SetModel { id: request_id, model: model@ },
            },
        ),
        ControlJob::CycleReasoningEffort { direction } => quiet_step(
            ControlState::RequestingHistory { direction, request_id },
            ControlActionView::Send { request: RequestView::GetHistory { id: request_id } },
        ),
    }
}

/// The step that `reply` leads to from `state`.
pub open spec fn control_next(state: ControlState, reply: ControlReply) -> ControlStepView {
    match (state, reply) {
        (_, ControlReply::Failed) => quiet_step(
            ControlState::Failed,
            ControlActionView::Fail {
                context: if state is CloningWriter {
                    Some(FailureContext::CloneWriter)
                } else {
                    None
                },
            },
        ),
        (ControlState::EnsuringServer { job, target_session_id }, _) => quiet_step(
            ControlState::Connecting { job, target_session_id },
            ControlActionView::Connect { timeout_ms: SERVER_START_TIMEOUT_MS },
        ),
        (ControlState::Connecting { job, target_session_id }, _) => quiet_step(
            ControlState::CloningWriter { job, target_session_id },
            ControlActionView::CloneWriter,
        ),
        (ControlState::CloningWriter { job, target_session_id }, _) => quiet_step(
            ControlState::Subscribing { job },
            ControlActionView::SubscribeAndEstablish {
                next_request_id: 1,
                target_session_id: optional_text(target_session_id),
            },
        ),
        (ControlState::Subscribing { job }, ControlReply::Subscribed { next_request_id }) => {
            request_step(job, next_request_id)
        },
        (ControlState::RequestingHistory { direction, request_id }, _) => quiet_step(
            ControlState::ReadingHistory { direction, next_request_id: (request_id + 1) as u64 },
            ControlActionView::ReadHistory { timeout_ms: SERVER_START_TIMEOUT_MS, request_id },
        ),
        (
            ControlState::ReadingHistory { direction, next_request_id },
            ControlReply::History { reasoning_effort },
        ) => quiet_step(
            ControlState::SendingRequest {
                awaited: AwaitedReply::ReasoningEffortChanged,
                request_id: next_request_id,
            },
            ControlActionView::Send {
                request: RequestView::SetReasoningEffort {
                    id: next_request_id,
                    effort: next_effort(optional_text(reasoning_effort), direction as int),
                },
            },
        ),
        (ControlState::SendingRequest { awaited, request_id }, _) => quiet_step(
            ControlState::AwaitingReply,
            ControlActionView::Await { awaited, timeout_ms: SERVER_START_TIMEOUT_MS, request_id },
        ),
        (ControlState::AwaitingReply, _) => quiet_step(
            ControlState::Finished,
            ControlActionView::Finish,
        ),
        _ => arbitrary(),
    }
}

fn quiet(state: ControlState, action: ControlAction) -> (step: ControlStep)
    ensures
        step@ == quiet_step(state, action@),
{
    let step = ControlStep { state, events: Vec::new(), action };
    assert(step@.events =~= seq![]);
    step
}

fn start(job: ControlJob, target_session_id: Option<String>, status: &str) -> (step: ControlStep)
    requires
        status@ == job.status(),
    ensures
        step@ == control_start(job, target_session_id),
{
    let mut events: Vec<DesktopSessionEvent> = Vec::new();
    events.push(DesktopSessionEvent::Status(status.to_string()));
    let step = ControlStep {
        state: ControlState::EnsuringServer { job, target_session_id },
        events,
        action: ControlAction::EnsureServerRunning,
    };
    assert(step@.events =~= control_start(job, target_session_id).events);
    step
}

/// Starts stepping to the next or the previous model.
pub fn cycle_model(direction: i8, target_session_id: Option<String>) -> (step: ControlStep)
    ensures
        step@ == control_start((ControlJob::CycleModel { direction }), target_session_id),
{
    start(ControlJob::CycleModel { direction }, target_session_id, "switching model")
}

/// Starts listing the models on offer.
pub fn load_model_catalog(target_session_id: Option<String>) -> (step: ControlStep)
    ensures
        step@ == control_start(ControlJob::LoadModelCatalog, target_session_id),
{
    start(ControlJob::LoadModelCatalog, target_session_id, "loading models")
}

/// Starts switching to `model`.
pub fn set_model(model: String, target_session_id: Option<String>) -> (step: ControlStep)
    ensures
        step@ == control_start((ControlJob::SetModel { model }), target_session_id),
{
    start(ControlJob::SetModel { model }, target_session_id, "switching model")
}

/// Starts stepping the reasoning effort up or down.
pub fn cycle_reasoning_effort(direction: i8, target_session_id: Option<String>) -> (step:
    ControlStep)
    ensures
        step@ == control_start((ControlJob::CycleReasoningEffort { direction }), target_session_id),
{
    start(
        ControlJob::CycleReasoningEffort { direction },
        target_session_id,
        "switching reasoning effort",
    )
}

impl ControlJob {
    /// Starts the run that does the job.
    pub fn begin(self, target_session_id: Option<String>) -> (step: ControlStep)
        ensures
            step@ == control_start(self, target_session_id),
    {
        match self {
            ControlJob::CycleModel { direction } => cycle_model(direction, target_session_id),
            ControlJob::LoadModelCatalog => load_model_catalog(target_session_id),
            ControlJob::SetModel { model } => set_model(model, target_session_id),
            ControlJob::CycleReasoningEffort { direction } => cycle_reasoning_effort(
                direction,
                target_session_id,
            ),
        }
    }

    /// Sends the job's request once the session is established.
    fn request(self, request_id: u64) -> (step: ControlStep)
        ensures
            step@ == request_step(self, request_id),
    {
        match self {
            ControlJob::CycleModel { direction } => quiet(
                ControlState::SendingRequest { awaited: AwaitedReply::ModelChanged, request_id },
                ControlAction::Send {
                    request: ServerRequest::CycleModel { id: request_id, direction },
                },
            ),
            ControlJob::LoadModelCatalog => quiet(
                ControlState::SendingRequest { awaited: AwaitedReply::ModelCatalog, request_id },
                ControlAction::Send { request: ServerRequest::GetModelCatalog { id: request_id } },
            ),
            ControlJob::SetModel { model } => quiet(
                ControlState::SendingRequest { awaited: AwaitedReply::ModelChanged, request_id },
                ControlAction::Send { request: ServerRequest::SetModel { id: request_id, model } },
            ),
            ControlJob::CycleReasoningEffort { direction } => quiet(
                ControlState::RequestingHistory { direction, request_id },
                ControlAction::Send { request: ServerRequest::GetHistory { id: request_id } },
            ),
        }
    }
}

impl ControlState {
    /// Whether `reply` answers what the state waits for, with ids to spare.
    pub fn accepts(&self, reply: &ControlReply) -> (answer: bool)
        ensures
            answer == control_accepts(*self, *reply),
    {
        match (self, reply) {
            (ControlState::Finished, _) => false,
            (ControlState::Failed, _) => false,
            (_, ControlReply::Failed) => true,
            (ControlState::EnsuringServer { .. }, ControlReply::Done) => true,
            (ControlState::Connecting { .. }, ControlReply::Done) => true,
            (ControlState::CloningWriter { .. }, ControlReply::Done) => true,
            (ControlState::Subscribing { .. }, ControlReply::Subscribed { .. }) => true,
            (ControlState::RequestingHistory { request_id, .. }, ControlReply::Done) => {
                *request_id < u64::MAX
            },
            (ControlState::ReadingHistory { .. }, ControlReply::History { .. }) => true,
            (ControlState::SendingRequest { .. }, ControlReply::Done) => true,
            (ControlState::AwaitingReply, ControlReply::Done) => true,
            _ => false,
        }
    }

    /// Takes the step that `reply` leads to.
    pub fn step(self, reply: ControlReply) -> (step: ControlStep)
        requires
            control_accepts(self, reply),
        ensures
            step@ == control_next(self, reply),
    {
        if let ControlReply::Failed = reply {
            let context = match self {
                ControlState::CloningWriter { .. } => Some(FailureContext::CloneWriter),
                _ => None,
            };
            return quiet(ControlState::Failed, ControlAction::Fail { context });
        }
        match self {
            ControlState::EnsuringServer { job, target_session_id } => quiet(
                ControlState::Connecting { job, target_session_id },
                ControlAction::Connect { timeout_ms: SERVER_START_TIMEOUT_MS },
            ),
            ControlState::Connecting { job, target_session_id } => quiet(
                ControlState::CloningWriter { job, target_session_id },
                ControlAction::CloneWriter,
            ),
            ControlState::CloningWriter { job, target_session_id } => quiet(
                ControlState::Subscribing { job },
                ControlAction::SubscribeAndEstablish { next_request_id: 1, target_session_id },
            ),
            ControlState::Subscribing { job } => match reply {
                ControlReply::Subscribed { next_request_id } => job.request(next_request_id),
                _ => vstd::pervasive::unreached(),
            },
            ControlState::RequestingHistory { direction, request_id } => quiet(
                ControlState::ReadingHistory { direction, next_request_id: request_id + 1 },
                ControlAction::ReadHistory { timeout_ms: SERVER_START_TIMEOUT_MS, request_id },
            ),
            ControlState::ReadingHistory { direction, next_request_id } => match reply {
                ControlReply::History { reasoning_effort } => {
                    let effort = next_reasoning_effort(&reasoning_effort, direction);
                    quiet(
                        ControlState::SendingRequest {
                            awaited: AwaitedReply::ReasoningEffortChanged,
                            request_id: next_request_id,
                        },
                        ControlAction::Send {
                            request: ServerRequest::SetReasoningEffort {
                                id: next_request_id,
                                effort: effort.to_string(),
                            },
                        },
                    )
                },
                _ => vstd::pervasive::unreached(),
            },
            ControlState::SendingRequest { awaited, request_id } => quiet(
                ControlState::AwaitingReply,
                ControlAction::Await { awaited, timeout_ms: SERVER_START_TIMEOUT_MS, request_id },
            ),
            ControlState::AwaitingReply => quiet(ControlState::Finished, ControlAction::Finish),
            ControlState::Finished => vstd::pervasive::unreached(),
            ControlState::Failed => vstd::pervasive::unreached(),
        }
    }
}

} // verus!
