//! Launching sessions: in a terminal of their own, or through a worker that talks
//! to the shared server.
//!
//! The functions here do all of a launch but the starting of the thread or of the
//! terminal: they check what the user wants sent, set up the channels, claim a
//! worker slot, and hand back what the thread is to run.

use std::sync::atomic::AtomicUsize;
use std::sync::mpsc::Receiver;

use vstd::prelude::*;
use vstd::string::*;

use crate::channel::{
    commands_offered, delivery, send_desktop_event_ref, DesktopSessionEventSender,
};
use crate::control::ControlJob;
use crate::event::{DesktopSessionEvent, EventView};
use crate::handle::{DesktopSessionCommand, DesktopSessionHandle};
use crate::platform::{Platform, ServerFeature};
use crate::session::SessionDraft;
use crate::text::{blank, is_blank};
use crate::worker::{
    has_slot, no_slot, spawn_bounded_desktop_session_worker, BoundedWorker, WorkerError,
};

verus! {

/// The workers that the desktop starts.
#[derive(Clone, Copy, Debug, PartialEq, Eq, Structural)]
pub enum WorkerKind {
    WorkspaceMessage,
    FreshSession,
    SessionMessage,
    CycleModel,
    CycleReasoningEffort,
    LoadModelCatalog,
    SetModel,
}

impl WorkerKind {
    /// The name of the worker's thread.
    pub open spec fn thread_name(self) -> Seq<char> {
        match self {
            WorkerKind::WorkspaceMessage => "jcode-desktop-workspace-message"@,
            WorkerKind::FreshSession => "jcode-desktop-fresh-session"@,
            WorkerKind::SessionMessage => "jcode-desktop-session-message"@,
            WorkerKind::CycleModel => "jcode-desktop-cycle-model"@,
            WorkerKind::CycleReasoningEffort => "jcode-desktop-cycle-effort"@,
            WorkerKind::LoadModelCatalog => "jcode-desktop-load-model-catalog"@,
            WorkerKind::SetModel => "jcode-desktop-set-model"@,
        }
    }

    /// The sentence that reports that the worker did not come up.
    pub open spec fn failure_text(self) -> Seq<char> {
        match self {
            WorkerKind::WorkspaceMessage => "failed to spawn desktop workspace message worker"@,
            WorkerKind::FreshSession => "failed to spawn desktop session worker"@,
            WorkerKind::SessionMessage => "failed to spawn desktop session worker"@,
            WorkerKind::CycleModel => "failed to spawn desktop model switch worker"@,
            WorkerKind::CycleReasoningEffort => "failed to spawn desktop reasoning effort worker"@,
            WorkerKind::LoadModelCatalog => "failed to spawn desktop model catalog worker"@,
            WorkerKind::SetModel => "failed to spawn desktop set model worker"@,
        }
    }

    /// What the log calls the worker's errand.
    pub open spec fn errand_text(self) -> Seq<char> {
        match self {
            WorkerKind::WorkspaceMessage => "workspace server message"@,
            WorkerKind::FreshSession => "fresh server session"@,
            WorkerKind::SessionMessage => "server session message"@,
            WorkerKind::CycleModel => "model cycle"@,
            WorkerKind::CycleReasoningEffort => "reasoning effort cycle"@,
            WorkerKind::LoadModelCatalog => "model catalog load"@,
            WorkerKind::SetModel => "set model"@,
        }
    }

    /// The name of the worker's thread.
    pub fn name(self) -> (name: &'static str)
        ensures
            name@ == self.thread_name(),
    {
        match self {
            WorkerKind::WorkspaceMessage => "jcode-desktop-workspace-message",
            WorkerKind::FreshSession => "jcode-desktop-fresh-session",
            WorkerKind::SessionMessage => "jcode-desktop-session-message",
            WorkerKind::CycleModel => "jcode-desktop-cycle-model",
            WorkerKind::CycleReasoningEffort => "jcode-desktop-cycle-effort",
            WorkerKind::LoadModelCatalog => "jcode-desktop-load-model-catalog",
            WorkerKind::SetModel => "jcode-desktop-set-model",
        }
    }

    /// The sentence that reports that the worker did not come up.
    pub fn failure_message(self) -> (text: &'static str)
        ensures
            text@ == self.failure_text(),
    {
        match self {
            WorkerKind::WorkspaceMessage => "failed to spawn desktop workspace message worker",
            WorkerKind::FreshSession => "failed to spawn desktop session worker",
            WorkerKind::SessionMessage => "failed to spawn desktop session worker",
            WorkerKind::CycleModel => "failed to spawn desktop model switch worker",
            WorkerKind::CycleReasoningEffort => "failed to spawn desktop reasoning effort worker",
            WorkerKind::LoadModelCatalog => "failed to spawn desktop model catalog worker",
            WorkerKind::SetModel => "failed to spawn desktop set model worker",
        }
    }

    /// What the log calls the worker's errand.
    pub fn errand(self) -> (text: &'static str)
        ensures
            text@ == self.errand_text(),
    {
        match self {
            WorkerKind::WorkspaceMessage => "workspace server message",
            WorkerKind::FreshSession => "fresh server session",
            WorkerKind::SessionMessage => "server session message",
            WorkerKind::CycleModel => "model cycle",
            WorkerKind::CycleReasoningEffort => "reasoning effort cycle",
            WorkerKind::LoadModelCatalog => "model catalog load",
            WorkerKind::SetModel => "set model",
        }
    }
}

/// Why a launch came to nothing.
#[derive(Clone, Debug, Eq, PartialEq)]
pub enum LaunchError {
    /// The session id is not one to send to, for these reasons, the cause last.
    InvalidSessionId { reasons: Vec<String> },
    /// There is nothing to send.
    EmptyDraft,
    /// The worker did not come up.
    Worker { kind: WorkerKind, error: WorkerError },
}

impl LaunchError {
    /// The sentences that report the error, from the outermost to the cause.
    pub open spec fn sentences(self) -> Seq<Seq<char>> {
        match self {
            LaunchError::InvalidSessionId { reasons } => seq![
                "refusing to send to invalid session id"@,
            ] + reasons@.map_values(|reason: String| reason@),
            LaunchError::EmptyDraft => seq!["empty draft message"@],
            LaunchError::Worker { kind, error } => seq![kind.failure_text()] + error.sentences(),
        }
    }

    /// The sentences that report the error, from the outermost to the cause.
    pub fn messages(&self) -> (messages: Vec<String>)
        ensures
            messages@.map_values(|message: String| message@) == self.sentences(),
    {
        match self {
            LaunchError::InvalidSessionId { reasons } => {
                under("refusing to send to invalid session id", reasons)
            },
            LaunchError::EmptyDraft => {
                let messages = under("empty draft message", &Vec::new());
                assert(messages@.map_values(|message: String| message@) =~= self.sentences());
                messages
            },
            LaunchError::Worker { kind, error } => {
                under(kind.failure_message(), &error.messages())
            },
        }
    }
}

/// `causes` with `sentence` in front.
fn under(sentence: &str, causes: &Vec<String>) -> (messages: Vec<String>)
    ensures
        messages@.map_values(|message: String| message@) == seq![sentence@] + causes@.map_values(
            |message: String| message@,
        ),
{
    let mut messages: Vec<String> = Vec::new();
    messages.push(sentence.to_string());
    for i in 0..causes.len()
        invariant
            messages@.len() == i + 1,
            messages@[0]@ == sentence@,
            forall|j: int| 0 <= j < i ==> #[trigger] messages@[j + 1]@ == causes@[j]@,
    {
        messages.push(causes[i].clone());
    }
    assert(messages@.map_values(|message: String| message@) =~= seq![sentence@]
        + causes@.map_values(|message: String| message@)) by {
        assert forall|k: int| 0 < k < messages@.len() implies (#[trigger] messages@[k])@
            == causes@[k - 1]@ by {
            assert(messages@[(k - 1) + 1]@ == causes@[k - 1]@);
        }
    }
    messages
}

/// `error` says that a worker of this kind found `counter` at a count that left no
/// room.
pub open spec fn all_slots_taken(
    error: LaunchError,
    kind: WorkerKind,
    counter: &AtomicUsize,
) -> bool {
    error matches LaunchError::Worker { kind: refused, error: WorkerError::Limit { name, refusal } }
        && refused == kind && name@ == kind.thread_name() && no_slot(refusal, counter)
}

/// What came of bringing a worker up, told as the launch tells it.
pub fn worker_started(kind: WorkerKind, outcome: Result<(), WorkerError>) -> (launched: Result<
    (),
    LaunchError,
>)
    ensures
        match outcome {
            Ok(_) => launched == Ok::<(), LaunchError>(()),
            Err(error) => launched == Err::<(), _>((LaunchError::Worker { kind, error })),
        },
{
    match outcome {
        Ok(_) => Ok(()),
        Err(error) => Err(LaunchError::Worker { kind, error }),
    }
}

/// Readies a worker of this kind.
fn ready_worker<'a, J>(counter: &'a AtomicUsize, kind: WorkerKind, job: J) -> (worker: Result<
    BoundedWorker<'a, J>,
    LaunchError,
>)
    ensures
        match worker {
            Ok(worker) => worker.name@ == kind.thread_name() && worker.job == job && has_slot(
                worker,
                counter,
            ),
            Err(error) => all_slots_taken(error, kind, counter),
        },
{
    match spawn_bounded_desktop_session_worker(counter, kind.name().to_string(), job) {
        Ok(worker) => Ok(worker),
        Err(error) => Err(LaunchError::Worker { kind, error }),
    }
}

/// What a session worker runs.
pub struct SessionJob {
    pub kind: WorkerKind,
    pub draft: SessionDraft,
    pub event_tx: Option<DesktopSessionEventSender>,
    pub command_rx: Receiver<DesktopSessionCommand>,
    /// Keeps the command channel open while nobody else holds a handle.
    pub held_handle: Option<DesktopSessionHandle>,
}

/// There is nothing to send: no words and no images.
pub open spec fn empty_draft(message: Seq<char>, images: Seq<(String, String)>) -> bool {
    blank(message) && images.len() == 0
}

/// Readies a worker that sends `message` to an existing session without reporting
/// back. `id_check` is what the check of `session_id` came to: where it failed, the
/// reasons, the cause last.
pub fn send_message_to_session<'a>(
    counter: &'a AtomicUsize,
    session_id: &str,
    _title: &str,
    message: &str,
    id_check: Result<(), Vec<String>>,
) -> (worker: Result<BoundedWorker<'a, SessionJob>, LaunchError>)
    ensures
        match id_check {
            Err(reasons) => worker == Err::<BoundedWorker<'a, SessionJob>, _>(
                (LaunchError::InvalidSessionId { reasons }),
            ),
            Ok(_) => if blank(message@) {
                worker == Err::<BoundedWorker<'a, SessionJob>, _>(LaunchError::EmptyDraft)
            } else {
                match worker {
                    Ok(worker) => {
                        &&& worker.name@ == WorkerKind::WorkspaceMessage.thread_name()
                        &&& worker.job.kind == WorkerKind::WorkspaceMessage
                        &&& has_slot(worker, counter)
                        &&& worker.job.draft.target_session_id matches Some(target) && target@
                            == session_id@
                        &&& worker.job.draft.message@ == message@
                        &&& worker.job.draft.images@.len() == 0
                        &&& worker.job.event_tx is None
                        &&& worker.job.held_handle matches Some(handle) && commands_offered(
                            worker.job.command_rx,
                        ) == handle.commands()
                    },
                    Err(error) => all_slots_taken(
                        error,
                        WorkerKind::WorkspaceMessage,
                        counter,
                    ),
                }
            },
        },
{
    if let Err(reasons) = id_check {
        return Err(LaunchError::InvalidSessionId { reasons });
    }
    if is_blank(message) {
        return Err(LaunchError::EmptyDraft);
    }
    let draft = SessionDraft {
        target_session_id: Some(session_id.to_string()),
        message: message.to_string(),
        images: Vec::new(),
    };
    let (handle, command_rx) = DesktopSessionHandle::new();
    let kind = WorkerKind::WorkspaceMessage;
    ready_worker(
        counter,
        kind,
        SessionJob { kind, draft, event_tx: None, command_rx, held_handle: Some(handle) },
    )
}

/// `launched` is a handle and a worker that sends `draft` and reports on
/// `event_tx`, joined by a command channel; or the error that no slot was free.
pub open spec fn session_launched(
    launched: Result<(DesktopSessionHandle, BoundedWorker<'_, SessionJob>), LaunchError>,
    counter: &AtomicUsize,
    kind: WorkerKind,
    draft: SessionDraft,
    event_tx: DesktopSessionEventSender,
) -> bool {
    match launched {
        Ok((handle, worker)) => {
            &&& worker.name@ == kind.thread_name()
            &&& worker.job.kind == kind
            &&& has_slot(worker, counter)
            &&& worker.job.draft == draft
            &&& worker.job.event_tx == Some(event_tx)
            &&& commands_offered(worker.job.command_rx) == handle.commands()
            &&& worker.job.held_handle is None
        },
        Err(error) => all_slots_taken(error, kind, counter),
    }
}

/// A handle steers the worker that it was launched with, and so does every copy of
/// it: the worker is offered the commands that go out through them, each once and in
/// the order in which they go out, and no others.
pub proof fn commands_reach_the_launched_worker(
    handle: DesktopSessionHandle,
    copy: DesktopSessionHandle,
    worker: BoundedWorker<'_, SessionJob>,
    counter: &AtomicUsize,
    kind: WorkerKind,
    draft: SessionDraft,
    event_tx: DesktopSessionEventSender,
)
    requires
        session_launched(Ok((handle, worker)), counter, kind, draft, event_tx),
        call_ensures(DesktopSessionHandle::clone, (&handle,), copy),
    ensures
        commands_offered(worker.job.command_rx) == handle.commands(),
        commands_offered(worker.job.command_rx) == copy.commands(),
{
}

/// A command that `cancel` or `send_stdin_response` reports as sent, on the handle of
/// a launch or on a copy of it, is offered to the worker of that launch.
pub proof fn sent_commands_are_offered(
    handle: DesktopSessionHandle,
    copy: DesktopSessionHandle,
    worker: BoundedWorker<'_, SessionJob>,
    counter: &AtomicUsize,
    kind: WorkerKind,
    draft: SessionDraft,
    event_tx: DesktopSessionEventSender,
    request_id: String,
    input: String,
)
    requires
        session_launched(Ok((handle, worker)), counter, kind, draft, event_tx),
        copy == handle || call_ensures(DesktopSessionHandle::clone, (&handle,), copy),
    ensures
        call_ensures(DesktopSessionHandle::cancel, (&copy,), Ok(())) ==> commands_offered(
            worker.job.command_rx,
        ).contains(DesktopSessionCommand::Cancel),
        call_ensures(
            DesktopSessionHandle::send_stdin_response,
            (&copy, request_id, input),
            Ok(()),
        ) ==> commands_offered(worker.job.command_rx).contains(
            (DesktopSessionCommand::StdinResponse { request_id, input }),
        ),
{
}

/// A worker is offered a command only if the command goes out through the handle that
/// the worker was launched with, or a copy of that handle.
pub proof fn workers_are_offered_nothing_else(
    handle: DesktopSessionHandle,
    worker: BoundedWorker<'_, SessionJob>,
    counter: &AtomicUsize,
    kind: WorkerKind,
    draft: SessionDraft,
    event_tx: DesktopSessionEventSender,
    command: DesktopSessionCommand,
)
    requires
        session_launched(Ok((handle, worker)), counter, kind, draft, event_tx),
        !handle.commands().contains(command),
    ensures
        !commands_offered(worker.job.command_rx).contains(command),
{
}

fn launch_session<'a>(
    counter: &'a AtomicUsize,
    kind: WorkerKind,
    draft: SessionDraft,
    event_tx: DesktopSessionEventSender,
) -> (launched: Result<(DesktopSessionHandle, BoundedWorker<'a, SessionJob>), LaunchError>)
    ensures
        session_launched(launched, counter, kind, draft, event_tx),
{
    let (handle, command_rx) = DesktopSessionHandle::new();
    let job = SessionJob { kind, draft, event_tx: Some(event_tx), command_rx, held_handle: None };
    match ready_worker(counter, kind, job) {
        Ok(worker) => Ok((handle, worker)),
        Err(error) => Err(error),
    }
}

/// Readies a worker that starts a session with `message` and `images`, and a
/// handle on it.
pub fn spawn_fresh_server_session<'a>(
    counter: &'a AtomicUsize,
    message: String,
    images: Vec<(String, String)>,
    event_tx: DesktopSessionEventSender,
) -> (launched: Result<(DesktopSessionHandle, BoundedWorker<'a, SessionJob>), LaunchError>)
    ensures
        if empty_draft(message@, images@) {
            launched == Err::<(DesktopSessionHandle, BoundedWorker<'a, SessionJob>), _>(
                LaunchError::EmptyDraft,
            )
        } else {
            session_launched(
                launched,
                counter,
                WorkerKind::FreshSession,
                (SessionDraft { target_session_id: None, message, images }),
                event_tx,
            )
        },
{
    if is_blank(message.as_str()) && images.is_empty() {
        return Err(LaunchError::EmptyDraft);
    }
    launch_session(
        counter,
        WorkerKind::FreshSession,
        SessionDraft { target_session_id: None, message, images },
        event_tx,
    )
}

/// Readies a worker that sends `message` and `images` to an existing session, and
/// a handle on it. `id_check` is what the check of `session_id` came to: where it
/// failed, the reasons, the cause last.
pub fn spawn_message_to_session<'a>(
    counter: &'a AtomicUsize,
    session_id: String,
    message: String,
    images: Vec<(String, String)>,
    event_tx: DesktopSessionEventSender,
    id_check: Result<(), Vec<String>>,
) -> (launched: Result<(DesktopSessionHandle, BoundedWorker<'a, SessionJob>), LaunchError>)
    ensures
        match id_check {
            Err(reasons) => launched == Err::<
                (DesktopSessionHandle, BoundedWorker<'a, SessionJob>),
                _,
            >((LaunchError::InvalidSessionId { reasons })),
            Ok(_) => if empty_draft(message@, images@) {
                launched == Err::<(DesktopSessionHandle, BoundedWorker<'a, SessionJob>), _>(
                    LaunchError::EmptyDraft,
                )
            } else {
                session_launched(
                    launched,
                    counter,
                    WorkerKind::SessionMessage,
                    (SessionDraft { target_session_id: Some(session_id), message, images }),
                    event_tx,
                )
            },
        },
{
    if let Err(reasons) = id_check {
        return Err(LaunchError::InvalidSessionId { reasons });
    }
    if is_blank(message.as_str()) && images.is_empty() {
        return Err(LaunchError::EmptyDraft);
    }
    launch_session(
        counter,
        WorkerKind::SessionMessage,
        SessionDraft { target_session_id: Some(session_id), message, images },
        event_tx,
    )
}

/// What a worker for a one-shot request runs.
pub struct ControlWork {
    pub kind: WorkerKind,
    pub job: ControlJob,
    pub target_session_id: Option<String>,
    pub event_tx: DesktopSessionEventSender,
}

/// What became of asking for a one-shot request.
pub enum ControlStart<'a> {
    /// A worker does it.
    Worker(BoundedWorker<'a, ControlWork>),
    /// The platform cannot do it, and the desktop has been told so, unless its end
    /// of the channel is gone: then this is the kind of the lost event.
    Unsupported { undelivered: Option<&'static str> },
}

/// `started` is a worker for `job`, or the error that no slot was free; where the
/// platform lacks the feature it is the report of that.
pub open spec fn control_started(
    started: Result<ControlStart<'_>, LaunchError>,
    platform: Platform,
    counter: &AtomicUsize,
    feature: ServerFeature,
    work: ControlWork,
) -> bool {
    match platform {
        Platform::Unix => match started {
            Ok(ControlStart::Worker(worker)) => worker.name@ == work.kind.thread_name()
                && worker.job == work && has_slot(worker, counter),
            Ok(ControlStart::Unsupported { .. }) => false,
            Err(error) => all_slots_taken(error, work.kind, counter),
        },
        Platform::Other => match started {
            Ok(ControlStart::Unsupported { undelivered }) => delivery(
                Some(&work.event_tx),
                EventView::ModelCatalogError { error: feature.missing_text() },
                undelivered,
            ),
            _ => false,
        },
    }
}

fn start_control<'a>(
    platform: Platform,
    counter: &'a AtomicUsize,
    feature: ServerFeature,
    work: ControlWork,
) -> (started: Result<ControlStart<'a>, LaunchError>)
    ensures
        control_started(started, platform, counter, feature, work),
{
    match platform {
        Platform::Unix => match ready_worker(counter, work.kind, work) {
            Ok(worker) => Ok(ControlStart::Worker(worker)),
            Err(error) => Err(error),
        },
        Platform::Other => {
            let undelivered = send_desktop_event_ref(
                Some(&work.event_tx),
                DesktopSessionEvent::ModelCatalogError {
                    error: feature.missing_message().to_string(),
                },
            );
            Ok(ControlStart::Unsupported { undelivered })
        },
    }
}

/// Readies a worker that steps to the next or the previous model.
pub fn spawn_cycle_model<'a>(
    platform: Platform,
    counter: &'a AtomicUsize,
    direction: i8,
    target_session_id: Option<String>,
    event_tx: DesktopSessionEventSender,
) -> (started: Result<ControlStart<'a>, LaunchError>)
    ensures
        control_started(
            started,
            platform,
            counter,
            ServerFeature::ModelSwitching,
            (ControlWork {
                kind: WorkerKind::CycleModel,
                job: ControlJob::CycleModel { direction },
                target_session_id,
                event_tx,
            }),
        ),
{
    start_control(
        platform,
        counter,
        ServerFeature::ModelSwitching,
        ControlWork {
            kind: WorkerKind::CycleModel,
            job: ControlJob::CycleModel { direction },
            target_session_id,
            event_tx,
        },
    )
}

/// Readies a worker that steps the reasoning effort up or down.
pub fn spawn_cycle_reasoning_effort<'a>(
    platform: Platform,
    counter: &'a AtomicUsize,
    direction: i8,
    target_session_id: Option<String>,
    event_tx: DesktopSessionEventSender,
) -> (started: Result<ControlStart<'a>, LaunchError>)
    ensures
        control_started(
            started,
            platform,
            counter,
            ServerFeature::ReasoningEffortSwitching,
            (ControlWork {
                kind: WorkerKind::CycleReasoningEffort,
                job: ControlJob::CycleReasoningEffort { direction },
                target_session_id,
                event_tx,
            }),
        ),
{
    start_control(
        platform,
        counter,
        ServerFeature::ReasoningEffortSwitching,
        ControlWork {
            kind: WorkerKind::CycleReasoningEffort,
            job: ControlJob::CycleReasoningEffort { direction },
            target_session_id,
            event_tx,
        },
    )
}

/// Readies a worker that lists the models on offer.
pub fn spawn_load_model_catalog<'a>(
    platform: Platform,
    counter: &'a AtomicUsize,
    target_session_id: Option<String>,
    event_tx: DesktopSessionEventSender,
) -> (started: Result<ControlStart<'a>, LaunchError>)
    ensures
        control_started(
            started,
            platform,
            counter,
            ServerFeature::ModelCatalog,
            (ControlWork {
                kind: WorkerKind::LoadModelCatalog,
                job: ControlJob::LoadModelCatalog,
                target_session_id,
                event_tx,
            }),
        ),
{
    start_control(
        platform,
        counter,
        ServerFeature::ModelCatalog,
        ControlWork {
            kind: WorkerKind::LoadModelCatalog,
            job: ControlJob::LoadModelCatalog,
            target_session_id,
            event_tx,
        },
    )
}

/// Readies a worker that switches to `model`.
pub fn spawn_set_model<'a>(
    platform: Platform,
    counter: &'a AtomicUsize,
    model: String,
    target_session_id: Option<String>,
    event_tx: DesktopSessionEventSender,
) -> (started: Result<ControlStart<'a>, LaunchError>)
    ensures
        control_started(
            started,
            platform,
            counter,
            ServerFeature::ModelSwitching,
            (ControlWork {
                kind: WorkerKind::SetModel,
                job: ControlJob::SetModel { model },
                target_session_id,
                event_tx,
            }),
        ),
{
    start_control(
        platform,
        counter,
        ServerFeature::ModelSwitching,
        ControlWork {
            kind: WorkerKind::SetModel,
            job: ControlJob::SetModel { model },
            target_session_id,
            event_tx,
        },
    )
}

/// What is reported of a session worker's run beyond what it reported itself: why it
/// gave up, if it did.
pub fn session_outcome(outcome: Result<(), String>) -> (event: Option<DesktopSessionEvent>)
    ensures
        match outcome {
            Ok(_) => event is None,
            Err(error) => event matches Some(event) && event@ == EventView::Error(error@),
        },
{
    match outcome {
        Ok(_) => None,
        Err(error) => Some(DesktopSessionEvent::Error(error)),
    }
}

/// What is reported of a one-shot request beyond what it reported itself: why it came
/// to nothing, if it did.
pub fn control_outcome(outcome: Result<(), String>) -> (event: Option<DesktopSessionEvent>)
    ensures
        match outcome {
            Ok(_) => event is None,
            Err(error) => event matches Some(event) && event@ == (EventView::ModelCatalogError {
                error: error@,
            }),
        },
{
    match outcome {
        Ok(_) => None,
        Err(error) => Some(DesktopSessionEvent::ModelCatalogError { error }),
    }
}

/// A terminal to open: its title, the arguments of `jcode` in it, and the command
/// line to name where no terminal is found.
#[derive(Clone, Debug, Eq, PartialEq)]
pub struct TerminalLaunch {
    pub title: String,
    pub arguments: Vec<String>,
    pub command_line: String,
}

/// The terminal that resumes `session_id`, under its shortened title.
pub fn launch_resume_session(session_id: &str, title: &str) -> (launch: TerminalLaunch)
    ensures
        launch.title@ == "jcode · "@ + title@,
        launch.arguments@.map_values(|argument: String| argument@) == seq![
            "--resume"@,
            session_id@,
        ],
        launch.command_line@ == "jcode --resume "@ + session_id@,
{
    let mut arguments: Vec<String> = Vec::new();
    arguments.push("--resume".to_string());
    arguments.push(session_id.to_string());
    assert(arguments@.map_values(|argument: String| argument@) =~= seq![
        "--resume"@,
        session_id@,
    ]);
    TerminalLaunch {
        title: "jcode · ".to_string().concat(title),
        arguments,
        command_line: "jcode --resume ".to_string().concat(session_id),
    }
}

/// The terminal that starts a new session.
pub fn launch_new_session() -> (launch: TerminalLaunch)
    ensures
        launch.title@ == "jcode · new session"@,
        launch.arguments@.map_values(|argument: String| argument@) == seq!["--fresh-spawn"@],
        launch.command_line@ == "jcode"@,
{
    let mut arguments: Vec<String> = Vec::new();
    arguments.push("--fresh-spawn".to_string());
    assert(arguments@.map_values(|argument: String| argument@) =~= seq!["--fresh-spawn"@]);
    TerminalLaunch {
        title: "jcode · new session".to_string(),
        arguments,
        command_line: "jcode".to_string(),
    }
}

} // verus!
