//! What holds of every launch, however its parts turn out.

use std::sync::atomic::AtomicUsize;

use vstd::prelude::*;

use crate::channel::{
    commands_offered, events_refused, events_taken, DesktopSessionEventSender,
};
use crate::control::ControlJob;
use crate::event::{DesktopSessionEvent, EventView};
use crate::handle::DesktopSessionHandle;
use crate::launch::{
    control_outcome, launch_new_session, launch_resume_session, send_message_to_session,
    session_outcome, spawn_cycle_model, spawn_cycle_reasoning_effort, spawn_fresh_server_session,
    spawn_load_model_catalog, spawn_message_to_session, spawn_set_model, worker_started,
    ControlStart, ControlWork, LaunchError, SessionJob, TerminalLaunch, WorkerKind,
};
use crate::permit::{counter_counts, raised_from, DesktopSessionWorkerPermit};
use crate::platform::Platform;
use crate::text::{is_blank, white_space};
use crate::worker::{BoundedWorker, WorkerError};

verus! {

/// `permit` is for one of the twelve slots on `counter`.
pub open spec fn one_of_twelve(
    permit: DesktopSessionWorkerPermit<'_>,
    counter: &AtomicUsize,
) -> bool {
    &&& permit.counter() == counter
    &&& permit.others() < 12
    &&& raised_from(counter_counts(*counter), permit.others())
}

/// `error` says that the worker `name` of this kind found all twelve slots taken.
pub open spec fn twelve_taken(
    error: LaunchError,
    kind: WorkerKind,
    name: Seq<char>,
    counter: &AtomicUsize,
) -> bool {
    &&& error matches LaunchError::Worker { kind: told, error: cause }
    &&& told == kind
    &&& cause matches WorkerError::Limit { name: worker, refusal }
    &&& worker@ == name
    &&& refusal.limit == 12
    &&& refusal.in_use >= 12
    &&& counter_counts(*counter).contains(refusal.in_use)
}

/// `worker` sends exactly these words and images to this session, reports on `event_tx`,
/// and takes the commands of `handle`.
pub open spec fn sends_and_obeys(
    worker: BoundedWorker<'_, SessionJob>,
    target_session_id: Option<String>,
    message: String,
    images: Vec<(String, String)>,
    event_tx: DesktopSessionEventSender,
    handle: DesktopSessionHandle,
) -> bool {
    &&& worker.job.draft.target_session_id == target_session_id
    &&& worker.job.draft.message == message
    &&& worker.job.draft.images == images
    &&& worker.job.event_tx == Some(event_tx)
    &&& worker.job.held_handle is None
    &&& commands_offered(worker.job.command_rx) == handle.commands()
}

/// A fresh session is refused for an empty draft when the draft holds neither an image nor
/// anything but white space, and then only. Otherwise it comes up and sends what it was
/// given, or finds all slots taken.
pub proof fn fresh_session_sends_its_draft(
    counter: &AtomicUsize,
    message: String,
    images: Vec<(String, String)>,
    event_tx: DesktopSessionEventSender,
    launched: Result<(DesktopSessionHandle, BoundedWorker<'_, SessionJob>), LaunchError>,
)
    requires
        call_ensures(spawn_fresh_server_session, (counter, message, images, event_tx), launched),
    ensures
        (launched matches Err(LaunchError::EmptyDraft)) <==> images@.len() == 0 && forall|i: int|
            0 <= i < message@.len() ==> white_space(#[trigger] message@[i]),
        match launched {
            Ok((handle, worker)) => {
                &&& worker.name@ == "jcode-desktop-fresh-session"@
                &&& worker.job.kind == WorkerKind::FreshSession
                &&& one_of_twelve(worker.permit, counter)
                &&& sends_and_obeys(worker, None, message, images, event_tx, handle)
            },
            Err(LaunchError::EmptyDraft) => true,
            Err(error) => twelve_taken(
                error,
                WorkerKind::FreshSession,
                "jcode-desktop-fresh-session"@,
                counter,
            ),
        },
{
}

/// A message to a session is refused for the id when the id was refused, with the reasons
/// given, whatever the draft; else for an empty draft, as a fresh session is; else it goes
/// to the session that was named.
pub proof fn message_goes_to_the_named_session(
    counter: &AtomicUsize,
    session_id: String,
    message: String,
    images: Vec<(String, String)>,
    event_tx: DesktopSessionEventSender,
    id_check: Result<(), Vec<String>>,
    launched: Result<(DesktopSessionHandle, BoundedWorker<'_, SessionJob>), LaunchError>,
)
    requires
        call_ensures(
            spawn_message_to_session,
            (counter, session_id, message, images, event_tx, id_check),
            launched,
        ),
    ensures
        (launched matches Err(LaunchError::InvalidSessionId { .. })) <==> id_check is Err,
        (launched matches Err(LaunchError::EmptyDraft)) <==> id_check is Ok && images@.len() == 0
            && forall|i: int| 0 <= i < message@.len() ==> white_space(#[trigger] message@[i]),
        match launched {
            Ok((handle, worker)) => {
                &&& worker.name@ == "jcode-desktop-session-message"@
                &&& worker.job.kind == WorkerKind::SessionMessage
                &&& one_of_twelve(worker.permit, counter)
                &&& sends_and_obeys(worker, Some(session_id), message, images, event_tx, handle)
            },
            Err(LaunchError::EmptyDraft) => true,
            Err(LaunchError::InvalidSessionId { reasons }) => id_check == Err::<(), Vec<String>>(
                reasons,
            ),
            Err(error) => twelve_taken(
                error,
                WorkerKind::SessionMessage,
                "jcode-desktop-session-message"@,
                counter,
            ),
        },
{
}

/// A workspace message is refused as a message to a session is, and otherwise goes to the
/// session that was named, under whatever title, without images and with nobody told.
pub proof fn workspace_message_goes_to_the_named_session(
    counter: &AtomicUsize,
    session_id: &str,
    title: &str,
    message: &str,
    id_check: Result<(), Vec<String>>,
    worker: Result<BoundedWorker<'_, SessionJob>, LaunchError>,
)
    requires
        call_ensures(
            send_message_to_session,
            (counter, session_id, title, message, id_check),
            worker,
        ),
    ensures
        (worker matches Err(LaunchError::InvalidSessionId { .. })) <==> id_check is Err,
        (worker matches Err(LaunchError::EmptyDraft)) <==> id_check is Ok && forall|i: int|
            0 <= i < message@.len() ==> white_space(#[trigger] message@[i]),
        match worker {
            Ok(worker) => {
                &&& worker.name@ == "jcode-desktop-workspace-message"@
                &&& worker.job.kind == WorkerKind::WorkspaceMessage
                &&& one_of_twelve(worker.permit, counter)
                &&& worker.job.draft.target_session_id matches Some(target) && target@
                    == session_id@
                &&& worker.job.draft.message@ == message@
                &&& worker.job.draft.images@.len() == 0
                &&& worker.job.event_tx is None
                &&& worker.job.held_handle matches Some(handle) && commands_offered(
                    worker.job.command_rx,
                ) == handle.commands()
            },
            Err(LaunchError::EmptyDraft) => true,
            Err(LaunchError::InvalidSessionId { reasons }) => id_check == Err::<(), Vec<String>>(
                reasons,
            ),
            Err(error) => twelve_taken(
                error,
                WorkerKind::WorkspaceMessage,
                "jcode-desktop-workspace-message"@,
                counter,
            ),
        },
{
}

/// A draft that one launch takes for empty, the check of its words takes for blank.
pub proof fn empty_drafts_are_blank(
    counter: &AtomicUsize,
    session_id: &str,
    title: &str,
    message: &str,
    blank: bool,
    worker: Result<BoundedWorker<'_, SessionJob>, LaunchError>,
)
    requires
        call_ensures(is_blank, (message,), blank),
        call_ensures(
            send_message_to_session,
            (counter, session_id, title, message, Ok(())),
            worker,
        ),
    ensures
        blank <==> (worker matches Err(LaunchError::EmptyDraft)),
{
}

/// `started` is a worker `name` for `job`, with its target and its channel as given, or all
/// slots taken; where there is no server, one report of `missing` instead.
pub open spec fn starts_as_asked(
    started: Result<ControlStart<'_>, LaunchError>,
    platform: Platform,
    counter: &AtomicUsize,
    kind: WorkerKind,
    name: Seq<char>,
    missing: Seq<char>,
    work: ControlWork,
) -> bool {
    match started {
        Ok(ControlStart::Worker(worker)) => {
            &&& platform == Platform::Unix
            &&& worker.name@ == name
            &&& one_of_twelve(worker.permit, counter)
            &&& worker.job.kind == kind
            &&& worker.job.job == work.job
            &&& worker.job.target_session_id == work.target_session_id
            &&& worker.job.event_tx == work.event_tx
        },
        Ok(ControlStart::Unsupported { undelivered }) => {
            &&& platform == Platform::Other
            &&& match undelivered {
                None => events_taken(work.event_tx).contains(
                    EventView::ModelCatalogError { error: missing },
                ),
                Some(told) => told@ == "model_catalog_error"@ && events_refused(
                    work.event_tx,
                ).contains(EventView::ModelCatalogError { error: missing }),
            }
        },
        Err(error) => platform == Platform::Unix && twelve_taken(error, kind, name, counter),
    }
}

/// Each one-shot request is started with the direction or the model, the target and the
/// channel that it was given, whatever they are.
pub proof fn requests_start_as_asked(
    platform: Platform,
    counter: &AtomicUsize,
    direction: i8,
    model: String,
    target_session_id: Option<String>,
    event_tx: DesktopSessionEventSender,
    started: Result<ControlStart<'_>, LaunchError>,
)
    ensures
        call_ensures(
            spawn_cycle_model,
            (platform, counter, direction, target_session_id, event_tx),
            started,
        ) ==> starts_as_asked(
            started,
            platform,
            counter,
            WorkerKind::CycleModel,
            "jcode-desktop-cycle-model"@,
            "desktop model switching is not implemented on this platform yet"@,
            (ControlWork {
                kind: WorkerKind::CycleModel,
                job: ControlJob::CycleModel { direction },
                target_session_id,
                event_tx,
            }),
        ),
        call_ensures(
            spawn_cycle_reasoning_effort,
            (platform, counter, direction, target_session_id, event_tx),
            started,
        ) ==> starts_as_asked(
            started,
            platform,
            counter,
            WorkerKind::CycleReasoningEffort,
            "jcode-desktop-cycle-effort"@,
            "desktop reasoning effort switching is not implemented on this platform yet"@,
            (ControlWork {
                kind: WorkerKind::CycleReasoningEffort,
                job: ControlJob::CycleReasoningEffort { direction },
                target_session_id,
                event_tx,
            }),
        ),
        call_ensures(
            spawn_load_model_catalog,
            (platform, counter, target_session_id, event_tx),
            started,
        ) ==> starts_as_asked(
            started,
            platform,
            counter,
            WorkerKind::LoadModelCatalog,
            "jcode-desktop-load-model-catalog"@,
            "desktop model catalog loading is not implemented on this platform yet"@,
            (ControlWork {
                kind: WorkerKind::LoadModelCatalog,
                job: ControlJob::LoadModelCatalog,
                target_session_id,
                event_tx,
            }),
        ),
        call_ensures(
            spawn_set_model,
            (platform, counter, model, target_session_id, event_tx),
            started,
        ) ==> starts_as_asked(
            started,
            platform,
            counter,
            WorkerKind::SetModel,
            "jcode-desktop-set-model"@,
            "desktop model switching is not implemented on this platform yet"@,
            (ControlWork {
                kind: WorkerKind::SetModel,
                job: ControlJob::SetModel { model },
                target_session_id,
                event_tx,
            }),
        ),
{
}

/// A launch that failed is told from the outside in: what the launch was for, and below it
/// every sentence of the cause, none left out and none added.
pub proof fn launch_error_tells_its_causes(
    error: LaunchError,
    outermost: &'static str,
    causes: Vec<String>,
    messages: Vec<String>,
)
    requires
        call_ensures(LaunchError::messages, (&error,), messages),
        error matches LaunchError::Worker { kind, error: cause } ==> call_ensures(
            WorkerKind::failure_message,
            (kind,),
            outermost,
        ) && call_ensures(WorkerError::messages, (&cause,), causes),
    ensures
        match error {
            LaunchError::EmptyDraft => messages@.len() == 1 && messages@[0]@
                == "empty draft message"@,
            LaunchError::InvalidSessionId { reasons } => {
                &&& messages@.len() == reasons@.len() + 1
                &&& messages@[0]@ == "refusing to send to invalid session id"@
                &&& forall|i: int|
                    0 <= i < reasons@.len() ==> (#[trigger] reasons@[i])@ == messages@[i + 1]@
            },
            LaunchError::Worker { .. } => {
                &&& messages@.len() == causes@.len() + 1
                &&& messages@[0]@ == outermost@
                &&& forall|i: int|
                    0 <= i < causes@.len() ==> (#[trigger] causes@[i])@ == messages@[i + 1]@
            },
        },
{
    let views = messages@.map_values(|message: String| message@);
    assert(views == error.sentences());
    assert(views.len() == messages@.len());
    assert(messages@.len() > 0 ==> views[0] == messages@[0]@);
    match error {
        LaunchError::EmptyDraft => {},
        LaunchError::InvalidSessionId { reasons } => {
            assert forall|i: int| 0 <= i < reasons@.len() implies (#[trigger] reasons@[i])@
                == messages@[i + 1]@ by {
                assert(views[i + 1] == messages@[i + 1]@);
                assert(reasons@.map_values(|reason: String| reason@)[i] == reasons@[i]@);
            }
        },
        LaunchError::Worker { error: cause, .. } => {
            let below = causes@.map_values(|message: String| message@);
            assert(below == cause.sentences());
            assert(below.len() == causes@.len());
            assert forall|i: int| 0 <= i < causes@.len() implies (#[trigger] causes@[i])@
                == messages@[i + 1]@ by {
                assert(views[i + 1] == messages@[i + 1]@);
                assert(below[i] == causes@[i]@);
            }
        },
    }
}

/// A worker that did not come up fails its launch, under the launch's kind and for the
/// worker's own error; one that did fails nothing.
pub proof fn failed_worker_fails_its_launch(
    kind: WorkerKind,
    outcome: Result<(), WorkerError>,
    launched: Result<(), LaunchError>,
)
    requires
        call_ensures(worker_started, (kind, outcome), launched),
    ensures
        launched is Ok <==> outcome is Ok,
        launched matches Err(error) ==> (error matches LaunchError::Worker {
            kind: told,
            error: why,
        } && told == kind && outcome == Err::<(), WorkerError>(why)),
{
}

/// A run that failed is reported once, with its error word for word; a run that succeeded
/// adds no report.
pub proof fn failed_runs_are_reported(
    outcome: Result<(), String>,
    of_session: Option<DesktopSessionEvent>,
    of_request: Option<DesktopSessionEvent>,
)
    requires
        call_ensures(session_outcome, (outcome,), of_session),
        call_ensures(control_outcome, (outcome,), of_request),
    ensures
        of_session is Some <==> outcome is Err,
        of_request is Some <==> outcome is Err,
        outcome matches Err(error) ==> {
            &&& of_session matches Some(DesktopSessionEvent::Error(told)) && told@ == error@
            &&& of_request matches Some(DesktopSessionEvent::ModelCatalogError { error: told })
                && told@ == error@
        },
{
}

/// A terminal for a session names the session and the title that were given, whatever they
/// are; one for a new session names neither.
pub proof fn terminals_name_their_session(
    session_id: &str,
    title: &str,
    resumed: TerminalLaunch,
    fresh: TerminalLaunch,
)
    requires
        call_ensures(launch_resume_session, (session_id, title), resumed),
        call_ensures(launch_new_session, (), fresh),
    ensures
        resumed.title@ == "jcode · "@ + title@,
        resumed.arguments@.len() == 2,
        resumed.arguments@[0]@ == "--resume"@,
        resumed.arguments@[1]@ == session_id@,
        resumed.command_line@ == "jcode --resume "@ + session_id@,
        fresh.title@ == "jcode · new session"@,
        fresh.arguments@.len() == 1,
        fresh.arguments@[0]@ == "--fresh-spawn"@,
        fresh.command_line@ == "jcode"@,
{
    let views = resumed.arguments@.map_values(|argument: String| argument@);
    assert(views.len() == resumed.arguments@.len());
    assert(views[0] == resumed.arguments@[0]@);
    assert(views[1] == resumed.arguments@[1]@);
    let words = fresh.arguments@.map_values(|argument: String| argument@);
    assert(words.len() == fresh.arguments@.len());
    assert(words[0] == fresh.arguments@[0]@);
}

} // verus!
