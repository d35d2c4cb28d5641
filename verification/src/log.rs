//! The lines that the log holds of workers that failed.

use vstd::prelude::*;
use vstd::string::*;

use crate::control::ControlJob;
use crate::launch::WorkerKind;
use crate::text::{signed_decimal, signed_decimal_text};

verus! {

/// How much of a model's name the log shows.
pub const LOGGED_MODEL_LIMIT: usize = 256;

/// The line for a worker that failed with `error`; `details` is what it was given.
pub open spec fn failure_text(
    kind: WorkerKind,
    details: Seq<char>,
    error: Seq<char>,
) -> Seq<char> {
    "jcode-desktop: "@ + kind.errand_text() + " failed"@ + details + ": "@ + error
}

/// What a session worker was given: the session to send to, if there is one.
pub open spec fn session_details(target_session_id: Option<Seq<char>>) -> Seq<char> {
    match target_session_id {
        Some(session_id) => " session_id="@ + session_id,
        None => ""@,
    }
}

/// What a one-shot request was given. Without a target it is for the current
/// session.
pub open spec fn control_details(
    job: ControlJob,
    target_session_id: Option<Seq<char>>,
) -> Seq<char> {
    (match job {
        ControlJob::CycleModel { direction } => " direction="@ + signed_decimal(direction as int),
        ControlJob::LoadModelCatalog => ""@,
        ControlJob::SetModel { model } => " model="@ + model@,
        ControlJob::CycleReasoningEffort { direction } => " direction="@ + signed_decimal(
            direction as int,
        ),
    }) + " target_session="@ + (match target_session_id {
        Some(session_id) => session_id,
        None => "<current>"@,
    })
}

/// The worker that does `job`.
pub open spec fn worker_for(job: ControlJob) -> WorkerKind {
    match job {
        ControlJob::CycleModel { .. } => WorkerKind::CycleModel,
        ControlJob::LoadModelCatalog => WorkerKind::LoadModelCatalog,
        ControlJob::SetModel { .. } => WorkerKind::SetModel,
        ControlJob::CycleReasoningEffort { .. } => WorkerKind::CycleReasoningEffort,
    }
}

fn failure_line(kind: WorkerKind, details: &str, error: &str) -> (line: String)
    ensures
        line@ == failure_text(kind, details@, error@),
{
    "jcode-desktop: ".to_string().concat(kind.errand()).concat(" failed").concat(details).concat(
        ": ",
    ).concat(error)
}

/// The line for a session worker that failed.
pub fn session_failure_line(
    kind: WorkerKind,
    target_session_id: Option<&str>,
    error: &str,
) -> (line: String)
    ensures
        line@ == failure_text(
            kind,
            session_details(
                match target_session_id {
                    Some(session_id) => Some(session_id@),
                    None => None,
                },
            ),
            error@,
        ),
{
    match target_session_id {
        Some(session_id) => {
            let details = " session_id=".to_string().concat(session_id);
            failure_line(kind, details.as_str(), error)
        },
        None => failure_line(kind, "", error),
    }
}

/// The line for a one-shot request that failed. The model in `job` is named as it is
/// to be shown, within [`LOGGED_MODEL_LIMIT`].
pub fn control_failure_line(
    job: &ControlJob,
    target_session_id: Option<&str>,
    error: &str,
) -> (line: String)
    ensures
        line@ == failure_text(
            worker_for(*job),
            control_details(
                *job,
                match target_session_id {
                    Some(session_id) => Some(session_id@),
                    None => None,
                },
            ),
            error@,
        ),
{
    let (kind, given) = match job {
        ControlJob::CycleModel { direction } => (
            WorkerKind::CycleModel,
            " direction=".to_string().concat(signed_decimal_text(*direction).as_str()),
        ),
        ControlJob::LoadModelCatalog => (WorkerKind::LoadModelCatalog, "".to_string()),
        ControlJob::SetModel { model } => (
            WorkerKind::SetModel,
            " model=".to_string().concat(model.as_str()),
        ),
        ControlJob::CycleReasoningEffort { direction } => (
            WorkerKind::CycleReasoningEffort,
            " direction=".to_string().concat(signed_decimal_text(*direction).as_str()),
        ),
    };
    let target = match target_session_id {
        Some(session_id) => session_id,
        None => "<current>",
    };
    let details = given.concat(" target_session=").concat(target);
    failure_line(kind, details.as_str(), error)
}

/// A failed session worker is logged with its errand, the session that it was given, if
/// any, and its error, each word for word.
pub proof fn session_line_tells_errand_session_and_error(
    kind: WorkerKind,
    errand: &'static str,
    target_session_id: Option<&str>,
    error: &str,
    line: String,
)
    requires
        call_ensures(WorkerKind::errand, (kind,), errand),
        call_ensures(session_failure_line, (kind, target_session_id, error), line),
    ensures
        match target_session_id {
            Some(session_id) => line@ == "jcode-desktop: "@ + errand@ + " failed"@
                + (" session_id="@ + session_id@) + ": "@ + error@,
            None => line@ == "jcode-desktop: "@ + errand@ + " failed"@ + ": "@ + error@,
        },
{
    reveal_strlit("");
    assert(""@.len() == 0);
    assert("jcode-desktop: "@ + errand@ + " failed"@ + ""@ =~= "jcode-desktop: "@ + errand@
        + " failed"@);
}

/// A failed request is logged with its errand, what it was given, the session that it was
/// for, and its error, each word for word.
pub proof fn request_line_tells_errand_target_and_error(
    job: ControlJob,
    direction_text: String,
    target_session_id: Option<&str>,
    error: &str,
    line: String,
)
    requires
        call_ensures(control_failure_line, (&job, target_session_id, error), line),
        match job {
            ControlJob::CycleModel { direction } => call_ensures(
                signed_decimal_text,
                (direction,),
                direction_text,
            ),
            ControlJob::CycleReasoningEffort { direction } => call_ensures(
                signed_decimal_text,
                (direction,),
                direction_text,
            ),
            _ => true,
        },
    ensures
        ({
            let target = match target_session_id {
                Some(session_id) => session_id@,
                None => "<current>"@,
            };
            let errand = match job {
                ControlJob::CycleModel { .. } => "model cycle"@,
                ControlJob::LoadModelCatalog => "model catalog load"@,
                ControlJob::SetModel { .. } => "set model"@,
                ControlJob::CycleReasoningEffort { .. } => "reasoning effort cycle"@,
            };
            let given = match job {
                ControlJob::CycleModel { .. } => " direction="@ + direction_text@,
                ControlJob::LoadModelCatalog => Seq::<char>::empty(),
                ControlJob::SetModel { model } => " model="@ + model@,
                ControlJob::CycleReasoningEffort { .. } => " direction="@ + direction_text@,
            };
            line@ == "jcode-desktop: "@ + errand + " failed"@ + (given + " target_session="@
                + target) + ": "@ + error@
        }),
{
    reveal_strlit("");
    assert(""@ =~= Seq::<char>::empty());
}

} // verus!
