//! What holds of every one-shot request, however its actions turn out.

use vstd::prelude::*;

use crate::control::{
    control_accepts, control_next, control_start, cycle_model, cycle_reasoning_effort,
    load_model_catalog, quiet_step, set_model, AwaitedReply, ControlAction, ControlActionView,
    ControlJob, ControlReply, ControlState, ControlStep, ControlStepView,
};
use crate::effort::{next_effort, next_reasoning_effort};
use crate::event::{event_views, optional_text, DesktopSessionEvent, EventView};
use crate::request::{RequestView, ServerRequest};
use crate::session::{FailureContext, SERVER_START_TIMEOUT_MS};

verus! {

/// The steps of a run of `job`, when `replies` come in order.
pub open spec fn control_run(
    job: ControlJob,
    target_session_id: Option<String>,
    replies: Seq<ControlReply>,
) -> Seq<ControlStepView>
    decreases replies.len(),
{
    if replies.len() == 0 {
        seq![control_start(job, target_session_id)]
    } else {
        let before = control_run(job, target_session_id, replies.drop_last());
        before.push(control_next(before.last().state, replies.last()))
    }
}

/// Each reply answers what the run waits for when it comes.
pub open spec fn valid_control_run(
    job: ControlJob,
    target_session_id: Option<String>,
    replies: Seq<ControlReply>,
) -> bool {
    forall|i: int|
        0 <= i < replies.len() ==> control_accepts(
            (#[trigger] control_run(job, target_session_id, replies)[i]).state,
            replies[i],
        )
}

/// `step` is what [`ControlState::step`] makes of `reply` in `state`.
pub open spec fn control_steps(
    state: ControlState,
    reply: ControlReply,
    step: ControlStep,
) -> bool {
    call_ensures(ControlState::step, (state, reply), step)
}

/// `step` opens a run of `job` on the session `target_session_id`, and reports `status`.
pub open spec fn opens_run(
    step: ControlStep,
    job: ControlJob,
    target_session_id: Option<String>,
    status: Seq<char>,
) -> bool {
    &&& step.state == (ControlState::EnsuringServer { job, target_session_id })
    &&& step.action is EnsureServerRunning
    &&& step.events@.len() == 1
    &&& step.events@[0] matches DesktopSessionEvent::Status(text) && text@ == status
}

/// Each request opens with its job and target as they were given, and says what it is
/// about to do. A job that is begun opens as its own function opens it.
pub proof fn requests_open_with_their_job(
    direction: i8,
    model: String,
    target_session_id: Option<String>,
    step: ControlStep,
)
    ensures
        call_ensures(cycle_model, (direction, target_session_id), step) || call_ensures(
            ControlJob::begin,
            ((ControlJob::CycleModel { direction }), target_session_id),
            step,
        ) ==> opens_run(
            step,
            (ControlJob::CycleModel { direction }),
            target_session_id,
            "switching model"@,
        ),
        call_ensures(load_model_catalog, (target_session_id,), step) || call_ensures(
            ControlJob::begin,
            (ControlJob::LoadModelCatalog, target_session_id),
            step,
        ) ==> opens_run(step, ControlJob::LoadModelCatalog, target_session_id, "loading models"@),
        call_ensures(set_model, (model, target_session_id), step) || call_ensures(
            ControlJob::begin,
            ((ControlJob::SetModel { model }), target_session_id),
            step,
        ) ==> opens_run(
            step,
            (ControlJob::SetModel { model }),
            target_session_id,
            "switching model"@,
        ),
        call_ensures(cycle_reasoning_effort, (direction, target_session_id), step) || call_ensures(
            ControlJob::begin,
            ((ControlJob::CycleReasoningEffort { direction }), target_session_id),
            step,
        ) ==> opens_run(
            step,
            (ControlJob::CycleReasoningEffort { direction }),
            target_session_id,
            "switching reasoning effort"@,
        ),
{
    let views = event_views(step.events@);
    assert(step@.events == views);
    assert(views.len() == step.events@.len());
    if views.len() > 0 {
        assert(views[0] == step.events@[0]@);
    }
}

/// A request fails when one of its actions failed, and only then, under that action's
/// own error; only a failed cloning adds a context. It succeeds when the server has given
/// the awaited answer, and only then. Nothing is reported on the way.
pub proof fn request_ends_as_its_reply_says(
    state: ControlState,
    reply: ControlReply,
    step: ControlStep,
)
    requires
        control_accepts(state, reply),
        control_steps(state, reply, step),
    ensures
        step.state is Failed <==> reply is Failed,
        step.action is Fail <==> reply is Failed,
        reply is Failed ==> step.action == (ControlAction::Fail {
            context: if state is CloningWriter {
                Some(FailureContext::CloneWriter)
            } else {
                None
            },
        }),
        step.state is Finished <==> state is AwaitingReply && reply is Done,
        step.action is Finish <==> state is AwaitingReply && reply is Done,
        step.events@.len() == 0,
{
    assert(event_views(step.events@).len() == step.events@.len());
    assert(step@.action == step.action@);
}

/// Up to its subscription a request goes one step after the other, and keeps its job and
/// its target. It subscribes to the session that it was given.
pub proof fn request_reaches_its_session(
    state: ControlState,
    reply: ControlReply,
    step: ControlStep,
    job: ControlJob,
    target_session_id: Option<String>,
)
    requires
        control_accepts(state, reply),
        control_steps(state, reply, step),
        reply is Done,
    ensures
        state == (ControlState::EnsuringServer { job, target_session_id }) ==> step.state == (
        ControlState::Connecting { job, target_session_id }) && step.action == (
        ControlAction::Connect { timeout_ms: 10_000 }),
        state == (ControlState::Connecting { job, target_session_id }) ==> step.state == (
        ControlState::CloningWriter { job, target_session_id }) && step.action is CloneWriter,
        state == (ControlState::CloningWriter { job, target_session_id }) ==> step.state == (
        ControlState::Subscribing { job }) && (step.action matches
        ControlAction::SubscribeAndEstablish { next_request_id, target_session_id: target }
            && next_request_id == 1 && (match (target, target_session_id) {
            (Some(asked), Some(given)) => asked@ == given@,
            (None, None) => true,
            _ => false,
        })),
{
    assert(step@.action == step.action@);
}

/// Once the session is established, what the job asks for goes out under the id that is
/// then free, and the answer to that id is awaited: the model is stepped in the direction
/// that was asked for, the catalog is asked for, the model that was named is set. A change
/// of effort asks for the history first.
pub proof fn request_asks_for_its_job(job: ControlJob, next_request_id: u64, step: ControlStep)
    requires
        control_steps(
            (ControlState::Subscribing { job }),
            (ControlReply::Subscribed { next_request_id }),
            step,
        ),
    ensures
        step.action is Send,
        match (job, step.action->request) {
            (
                ControlJob::CycleModel { direction },
                ServerRequest::CycleModel { id, direction: sent },
            ) => id == next_request_id && sent == direction,
            (ControlJob::LoadModelCatalog, ServerRequest::GetModelCatalog { id }) => id
                == next_request_id,
            (ControlJob::SetModel { model }, ServerRequest::SetModel { id, model: sent }) => id
                == next_request_id && sent@ == model@,
            (ControlJob::CycleReasoningEffort { .. }, ServerRequest::GetHistory { id }) => id
                == next_request_id,
            _ => false,
        },
        step.state == match job {
            ControlJob::CycleReasoningEffort { direction } => ControlState::RequestingHistory {
                direction,
                request_id: next_request_id,
            },
            ControlJob::LoadModelCatalog => ControlState::SendingRequest {
                awaited: AwaitedReply::ModelCatalog,
                request_id: next_request_id,
            },
            _ => ControlState::SendingRequest {
                awaited: AwaitedReply::ModelChanged,
                request_id: next_request_id,
            },
        },
{
    assert(step@.action == step.action@);
}

/// A change of effort reads the effort out of the answer to its history request, and then
/// asks for the effort one rung away in the direction that was asked for, whatever the
/// server reported, under the id after the history request's.
pub proof fn effort_steps_from_the_reported_one(
    direction: i8,
    request_id: u64,
    reading: ControlStep,
    reported: Option<String>,
    effort: &'static str,
    asking: ControlStep,
)
    requires
        request_id < u64::MAX,
        control_steps(
            (ControlState::RequestingHistory { direction, request_id }),
            ControlReply::Done,
            reading,
        ),
        control_steps(
            reading.state,
            (ControlReply::History { reasoning_effort: reported }),
            asking,
        ),
        call_ensures(next_reasoning_effort, (&reported, direction), effort),
    ensures
        reading.action == (ControlAction::ReadHistory { timeout_ms: 10_000, request_id }),
        reading.state is ReadingHistory,
        asking.state == (ControlState::SendingRequest {
            awaited: AwaitedReply::ReasoningEffortChanged,
            request_id: (request_id + 1) as u64,
        }),
        asking.action matches ControlAction::Send { request } && (request matches
        ServerRequest::SetReasoningEffort { id, effort: asked } && id == request_id + 1 && asked@
            == effort@),
{
    assert(reading@.action == reading.action@);
    assert(asking@.action == asking.action@);
}

/// A request that went out is followed by the wait for the answer to its id.
pub proof fn request_awaits_its_answer(awaited: AwaitedReply, request_id: u64, step: ControlStep)
    requires
        control_steps(
            (ControlState::SendingRequest { awaited, request_id }),
            ControlReply::Done,
            step,
        ),
    ensures
        step.state is AwaitingReply,
        step.action == (ControlAction::Await { awaited, timeout_ms: 10_000, request_id }),
{
    assert(step@.action == step.action@);
}

/// The same change of effort asked for on any two runs asks for the same effort where the
/// reported efforts and the signs of the directions are the same: ids play no part in it.
pub proof fn effort_rests_on_report_and_sign(
    directions: (i8, i8),
    ids: (u64, u64),
    reported: Option<String>,
    asking: (ControlStep, ControlStep),
)
    requires
        directions.0 > 0 <==> directions.1 > 0,
        control_steps(
            (ControlState::ReadingHistory { direction: directions.0, next_request_id: ids.0 }),
            (ControlReply::History { reasoning_effort: reported }),
            asking.0,
        ),
        control_steps(
            (ControlState::ReadingHistory { direction: directions.1, next_request_id: ids.1 }),
            (ControlReply::History { reasoning_effort: reported }),
            asking.1,
        ),
    ensures
        asking.0.action is Send && asking.0.action->request is SetReasoningEffort,
        asking.1.action is Send && asking.1.action->request is SetReasoningEffort,
        asking.0.action->request->effort@ == asking.1.action->request->effort@,
        asking.0.action->request->SetReasoningEffort_id == ids.0,
        asking.1.action->request->SetReasoningEffort_id == ids.1,
{
    assert(asking.0@.action == asking.0.action@);
    assert(asking.1@.action == asking.1.action@);
}

/// A request takes a reply exactly where it waits for one of that kind. Any action may
/// fail; a history request needs an id that is not the last.
pub proof fn request_takes_the_replies_it_waits_for(
    state: ControlState,
    reply: ControlReply,
    answer: bool,
)
    requires
        call_ensures(ControlState::accepts, (&state, &reply), answer),
    ensures
        answer == control_accepts(state, reply),
        reply is Failed ==> answer == !(state is Finished || state is Failed),
        reply is Done ==> answer == (state is EnsuringServer || state is Connecting || state
            is CloningWriter || state is SendingRequest || state is AwaitingReply || (state matches
        ControlState::RequestingHistory { request_id, .. } && request_id < u64::MAX)),
        reply is Subscribed ==> answer == state is Subscribing,
        reply is History ==> answer == state is ReadingHistory,
{
}

/// The last step that a successful run of `job` takes.
pub open spec fn final_step(job: ControlJob) -> int {
    if job is CycleReasoningEffort {
        8
    } else {
        6
    }
}

/// What the server's answer to `job` is called.
pub open spec fn awaited_for(job: ControlJob) -> AwaitedReply {
    match job {
        ControlJob::CycleModel { .. } => AwaitedReply::ModelChanged,
        ControlJob::LoadModelCatalog => AwaitedReply::ModelCatalog,
        ControlJob::SetModel { .. } => AwaitedReply::ModelChanged,
        ControlJob::CycleReasoningEffort { .. } => AwaitedReply::ReasoningEffortChanged,
    }
}

/// The request that does `job`, given its id and the effort that the server
/// reported.
pub open spec fn request_for(job: ControlJob, id: u64, reported: Option<Seq<char>>) -> RequestView {
    match job {
        ControlJob::CycleModel { direction } => RequestView::CycleModel { id, direction },
        ControlJob::LoadModelCatalog => RequestView::GetModelCatalog { id },
        ControlJob::SetModel { model } => RequestView::SetModel { id, model: model@ },
        ControlJob::CycleReasoningEffort { direction } => RequestView::SetReasoningEffort {
            id,
            effort: next_effort(reported, direction as int),
        },
    }
}

/// A run has one step more than it has replies, begins with the first step of the
/// job, and each reply leads from one of its steps to the next.
pub proof fn control_run_follows_its_replies(
    job: ControlJob,
    target_session_id: Option<String>,
    replies: Seq<ControlReply>,
)
    ensures
        control_run(job, target_session_id, replies).len() == replies.len() + 1,
        control_run(job, target_session_id, replies)[0] == control_start(job, target_session_id),
        forall|i: int|
            0 <= i < replies.len() ==> #[trigger] control_run(job, target_session_id, replies)[i
                + 1] == control_next(
                control_run(job, target_session_id, replies)[i].state,
                replies[i],
            ),
    decreases replies.len(),
{
    if replies.len() > 0 {
        let earlier = replies.drop_last();
        control_run_follows_its_replies(job, target_session_id, earlier);
        let before = control_run(job, target_session_id, earlier);
        let run = control_run(job, target_session_id, replies);
        assert forall|i: int| 0 <= i < replies.len() implies #[trigger] run[i + 1] == control_next(
            run[i].state,
            replies[i],
        ) by {
            if i < earlier.len() {
                assert(before[i + 1] == control_next(before[i].state, earlier[i]));
            }
        }
    }
}

/// The step that a run of `job` is at after `i` replies, if none of them was a
/// failure.
pub open spec fn unfailed_step(
    job: ControlJob,
    target_session_id: Option<String>,
    replies: Seq<ControlReply>,
    i: int,
) -> ControlStepView {
    let first_id = replies[3]->next_request_id;
    let cycles_effort = job is CycleReasoningEffort;
    let id = if cycles_effort {
        (first_id + 1) as u64
    } else {
        first_id
    };
    if i == 0 {
        control_start(job, target_session_id)
    } else if i == 1 {
        quiet_step(
            ControlState::Connecting { job, target_session_id },
            ControlActionView::Connect { timeout_ms: SERVER_START_TIMEOUT_MS },
        )
    } else if i == 2 {
        quiet_step(
            ControlState::CloningWriter { job, target_session_id },
            ControlActionView::CloneWriter,
        )
    } else if i == 3 {
        quiet_step(
            ControlState::Subscribing { job },
            ControlActionView::SubscribeAndEstablish {
                next_request_id: 1,
                target_session_id: optional_text(target_session_id),
            },
        )
    } else if i == 4 && cycles_effort {
        quiet_step(
            ControlState::RequestingHistory {
                direction: job->CycleReasoningEffort_direction,
                request_id: first_id,
            },
            ControlActionView::Send { request: RequestView::GetHistory { id: first_id } },
        )
    } else if i == 5 && cycles_effort {
        quiet_step(
            ControlState::ReadingHistory {
                direction: job->CycleReasoningEffort_direction,
                next_request_id: id,
            },
            ControlActionView::ReadHistory {
                timeout_ms: SERVER_START_TIMEOUT_MS,
                request_id: first_id,
            },
        )
    } else if i == final_step(job) - 2 {
        quiet_step(
            ControlState::SendingRequest { awaited: awaited_for(job), request_id: id },
            ControlActionView::Send {
                request: request_for(job, id, optional_text(replies[5]->reasoning_effort)),
            },
        )
    } else if i == final_step(job) - 1 {
        quiet_step(
            ControlState::AwaitingReply,
            ControlActionView::Await {
                awaited: awaited_for(job),
                timeout_ms: SERVER_START_TIMEOUT_MS,
                request_id: id,
            },
        )
    } else {
        quiet_step(ControlState::Finished, ControlActionView::Finish)
    }
}

proof fn control_step_at(
    job: ControlJob,
    target_session_id: Option<String>,
    replies: Seq<ControlReply>,
    i: int,
)
    requires
        valid_control_run(job, target_session_id, replies),
        0 <= i < replies.len(),
    ensures
        ({
            let run = control_run(job, target_session_id, replies);
            &&& control_accepts(run[i].state, replies[i])
            &&& run[i + 1] == control_next(run[i].state, replies[i])
        }),
{
    control_run_follows_its_replies(job, target_session_id, replies);
    let run = control_run(job, target_session_id, replies);
    assert(run[i + 1] == control_next(run[i].state, replies[i]));
    assert(control_accepts(run[i].state, replies[i]));
}

/// Every run takes the steps of its job in their order, until it is through or a
/// reply is a failure, which ends it. Nothing else makes it fail.
pub proof fn control_run_takes_its_steps(
    job: ControlJob,
    target_session_id: Option<String>,
    replies: Seq<ControlReply>,
    i: int,
)
    requires
        valid_control_run(job, target_session_id, replies),
        0 <= i <= replies.len(),
    ensures
        i <= final_step(job),
        ({
            let step = control_run(job, target_session_id, replies)[i];
            ||| step.state is Failed && i == replies.len() && i > 0 && replies[i - 1] is Failed
            ||| step == unfailed_step(job, target_session_id, replies, i) && !(step.state is Failed)
        }),
    decreases i,
{
    control_run_follows_its_replies(job, target_session_id, replies);
    if i > 0 {
        control_run_takes_its_steps(job, target_session_id, replies, i - 1);
        control_step_at(job, target_session_id, replies, i - 1);
    }
    if i < replies.len() {
        control_step_at(job, target_session_id, replies, i);
    }
}

/// Every run ends: it takes no more replies than its job has steps.
pub proof fn control_run_is_bounded(
    job: ControlJob,
    target_session_id: Option<String>,
    replies: Seq<ControlReply>,
)
    requires
        valid_control_run(job, target_session_id, replies),
    ensures
        replies.len() <= final_step(job),
        replies.len() == final_step(job) ==> {
            let last = control_run(job, target_session_id, replies).last().state;
            last is Finished || last is Failed
        },
{
    control_run_follows_its_replies(job, target_session_id, replies);
    control_run_takes_its_steps(job, target_session_id, replies, replies.len() as int);
}

/// A run that finishes has subscribed to the session it was given, sent the job's
/// request once and last, under an id of its own, and waited for the answer to
/// that id. A change of effort has asked for the history first, and steps from the
/// effort that the server reported.
pub proof fn finished_run_did_its_job(
    job: ControlJob,
    target_session_id: Option<String>,
    replies: Seq<ControlReply>,
)
    requires
        valid_control_run(job, target_session_id, replies),
        control_run(job, target_session_id, replies).last().state is Finished,
    ensures
        replies.len() == final_step(job),
        ({
            let run = control_run(job, target_session_id, replies);
            let last = final_step(job);
            &&& run[3].action == (ControlActionView::SubscribeAndEstablish {
                next_request_id: 1,
                target_session_id: optional_text(target_session_id),
            })
            &&& replies[3] matches ControlReply::Subscribed { next_request_id } && if job
                is CycleReasoningEffort {
                let id = (next_request_id + 1) as u64;
                &&& next_request_id < u64::MAX
                &&& run[4].action == (ControlActionView::Send {
                    request: RequestView::GetHistory { id: next_request_id },
                })
                &&& run[5].action == (ControlActionView::ReadHistory {
                    timeout_ms: SERVER_START_TIMEOUT_MS,
                    request_id: next_request_id,
                })
                &&& replies[5] matches ControlReply::History { reasoning_effort } && run[last
                    - 2].action == (ControlActionView::Send {
                    request: request_for(job, id, optional_text(reasoning_effort)),
                })
                &&& run[last - 1].action == (ControlActionView::Await {
                    awaited: awaited_for(job),
                    timeout_ms: SERVER_START_TIMEOUT_MS,
                    request_id: id,
                })
            } else {
                &&& run[last - 2].action == (ControlActionView::Send {
                    request: request_for(job, next_request_id, None),
                })
                &&& run[last - 1].action == (ControlActionView::Await {
                    awaited: awaited_for(job),
                    timeout_ms: SERVER_START_TIMEOUT_MS,
                    request_id: next_request_id,
                })
            }
        }),
{
    control_run_follows_its_replies(job, target_session_id, replies);
    let last = replies.len() as int;
    control_run_takes_its_steps(job, target_session_id, replies, last);
    control_run_takes_its_steps(job, target_session_id, replies, last - 1);
    control_run_takes_its_steps(job, target_session_id, replies, last - 2);
    control_run_takes_its_steps(job, target_session_id, replies, 5);
    control_run_takes_its_steps(job, target_session_id, replies, 4);
    control_run_takes_its_steps(job, target_session_id, replies, 3);
    control_step_at(job, target_session_id, replies, 5);
    control_step_at(job, target_session_id, replies, 4);
    control_step_at(job, target_session_id, replies, 3);
}

/// A run in which nothing fails gets through: after as many replies as its job has steps
/// it has finished, and on the way the job's request went out, with the effort one rung
/// from the reported one where it is an effort that is stepped.
pub proof fn undisturbed_run_gets_through(
    job: ControlJob,
    target_session_id: Option<String>,
    replies: Seq<ControlReply>,
)
    requires
        valid_control_run(job, target_session_id, replies),
        forall|i: int| 0 <= i < replies.len() ==> !((#[trigger] replies[i]) is Failed),
        replies.len() == final_step(job),
    ensures
        ({
            let run = control_run(job, target_session_id, replies);
            &&& run.last().state is Finished
            &&& run.last().action is Finish
            &&& replies[3] is Subscribed
            &&& run[final_step(job) - 2].action == (ControlActionView::Send {
                request: if job is CycleReasoningEffort {
                    request_for(
                        job,
                        (replies[3]->next_request_id + 1) as u64,
                        optional_text(replies[5]->reasoning_effort),
                    )
                } else {
                    request_for(job, replies[3]->next_request_id, None)
                },
            })
        }),
{
    control_run_follows_its_replies(job, target_session_id, replies);
    control_run_takes_its_steps(job, target_session_id, replies, replies.len() as int);
    finished_run_did_its_job(job, target_session_id, replies);
}

/// A run fails at the reply that is a failure, and at no other.
pub proof fn run_fails_only_on_a_failure(
    job: ControlJob,
    target_session_id: Option<String>,
    replies: Seq<ControlReply>,
    i: int,
)
    requires
        valid_control_run(job, target_session_id, replies),
        0 <= i < replies.len(),
    ensures
        control_run(job, target_session_id, replies)[i + 1].state is Failed <==> replies[i]
            is Failed,
        control_run(job, target_session_id, replies)[i + 1].action is Fail <==> replies[i]
            is Failed,
{
    control_step_at(job, target_session_id, replies, i);
    control_run_takes_its_steps(job, target_session_id, replies, i + 1);
    control_run_takes_its_steps(job, target_session_id, replies, i);
}

/// A run itself reports one event only: the status that opens it.
pub proof fn control_run_reports_its_status_once(
    job: ControlJob,
    target_session_id: Option<String>,
    replies: Seq<ControlReply>,
    i: int,
)
    requires
        valid_control_run(job, target_session_id, replies),
        0 <= i <= replies.len(),
    ensures
        control_run(job, target_session_id, replies)[i].events == if i == 0 {
            seq![EventView::Status(job.status())]
        } else {
            seq![]
        },
{
    control_run_follows_its_replies(job, target_session_id, replies);
    if i > 0 {
        control_step_at(job, target_session_id, replies, i - 1);
    }
}

} // verus!
