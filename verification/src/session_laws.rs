//! What holds of every run of a session, however its actions turn out.

use vstd::prelude::*;

use crate::event::{event_views, DesktopSessionEvent, EventView};
use crate::platform::{Platform, ServerFeature};
use crate::request::ServerRequest;
use crate::session::{
    run_server_session, session_accepts, session_next, session_socket, session_start, DrainOutcome,
    FailureContext, LiveSession, SessionAction, SessionDraft, SessionFailure, SessionReply,
    SessionState, SessionStep, SessionStepView,
};

verus! {

/// The steps of a session for `draft`, when `replies` come in order.
pub open spec fn session_run<P>(
    draft: SessionDraft,
    replies: Seq<SessionReply<P>>,
) -> Seq<SessionStepView<P>>
    decreases replies.len(),
{
    if replies.len() == 0 {
        seq![session_start(draft)]
    } else {
        let before = session_run(draft, replies.drop_last());
        before.push(session_next(before.last().state, replies.last()))
    }
}

/// Each reply answers what the session waits for when it comes.
pub open spec fn valid_run<P>(draft: SessionDraft, replies: Seq<SessionReply<P>>) -> bool {
    forall|i: int|
        0 <= i < replies.len() ==> session_accepts(
            (#[trigger] session_run(draft, replies)[i]).state,
            replies[i],
        )
}

/// `events` is a single status line.
pub open spec fn only_status(events: Seq<DesktopSessionEvent>, status: Seq<char>) -> bool {
    events.len() == 1 && (events[0] matches DesktopSessionEvent::Status(text) && text@ == status)
}

/// `step` is what [`SessionState::step`] makes of `reply` in `state`.
pub open spec fn steps<P>(
    state: SessionState<P>,
    reply: SessionReply<P>,
    step: SessionStep<P>,
) -> bool {
    call_ensures(SessionState::<P>::step, (state, reply), step)
}

/// The server answered for another session than the one it had named before.
pub open spec fn answers_for_another<P>(state: SessionState<P>, reply: SessionReply<P>) -> bool {
    match (state, reply) {
        (
            SessionState::Reestablishing { live, .. },
            SessionReply::Established { session_id, .. },
        ) => session_id@ != live.session_id@,
        _ => false,
    }
}

/// A session starts with the draft that it was given, word for word and image for
/// image, and reports that it starts the server. Without a server it does not start.
pub proof fn session_starts_with_its_draft<P>(
    platform: Platform,
    target_session_id: Option<String>,
    message: String,
    images: Vec<(String, String)>,
    started: Result<SessionStep<P>, ServerFeature>,
)
    requires
        call_ensures(
            run_server_session::<P>,
            (platform, target_session_id, message, images),
            started,
        ),
    ensures
        started is Ok <==> platform == Platform::Unix,
        started matches Ok(step) ==> {
            &&& step.state matches SessionState::EnsuringServer { draft }
            &&& draft.target_session_id == target_session_id
            &&& draft.message == message
            &&& draft.images == images
            &&& step.action is EnsureServerRunning
            &&& only_status(step.events@, "starting shared server"@)
        },
        started matches Err(feature) ==> feature == ServerFeature::Sessions,
{
    if let Ok(step) = started {
        let views = event_views(step.events@);
        assert(step@.events == views);
        assert(views.len() == step.events@.len());
        assert(views[0] == step.events@[0]@);
    }
}

/// A session ends in success when the reading of events comes to the end of the
/// message, and only then; it returns the id of the session. It ends in failure when an
/// action failed or the server answered for another session, and only then. The step
/// says the same as the state.
pub proof fn session_ends_as_its_reply_says<P>(
    state: SessionState<P>,
    reply: SessionReply<P>,
    step: SessionStep<P>,
)
    requires
        session_accepts(state, reply),
        steps(state, reply, step),
    ensures
        step.state is Finished <==> reply matches SessionReply::Drained {
            outcome: DrainOutcome::Terminal,
            ..
        },
        step.state is Failed <==> reply is Failed || answers_for_another(state, reply),
        step.action is Finish <==> step.state is Finished,
        step.action is Fail <==> step.state is Failed,
        step.state is Finished ==> {
            &&& session_of(state) is Some
            &&& session_of(step.state) == session_of(state)
            &&& step.action == (SessionAction::Finish { session_id: session_of(state)->0 })
        },
        step.state is Finished || step.state is Failed ==> step.events@.len() == 0,
{
    assert(event_views(step.events@).len() == step.events@.len());
}

/// A failed action fails the session under that action's own error, with a context only
/// where the connection could not be cloned. An answer for another session names both.
pub proof fn session_failure_tells_its_cause<P>(
    state: SessionState<P>,
    reply: SessionReply<P>,
    step: SessionStep<P>,
    failure: SessionFailure,
)
    requires
        session_accepts(state, reply),
        steps(state, reply, step),
        step.action == (SessionAction::Fail { failure }),
    ensures
        match failure {
            SessionFailure::Action { context } => reply is Failed && context == if state
                is CloningWriter {
                Some(FailureContext::CloneWriter)
            } else if state is CloningReconnectedWriter {
                Some(FailureContext::CloneReconnectedWriter)
            } else {
                None
            },
            SessionFailure::UnexpectedSession { expected, got } => session_of(state) == Some(
                expected,
            ) && (reply matches SessionReply::Established { session_id, .. } && session_id == got),
        },
{
}

/// A failure says what went wrong: nothing of its own where an action failed without a
/// context, the two ids where the server answered for another session.
pub proof fn failure_message_names_both_sessions(failure: SessionFailure, text: Option<String>)
    requires
        call_ensures(SessionFailure::message, (&failure,), text),
    ensures
        match failure {
            SessionFailure::UnexpectedSession { expected, got } => text matches Some(text) && text@
                == "jcode server reconnected to unexpected session id: expected "@ + expected@
                + ", got "@ + got@,
            SessionFailure::Action { context: None } => text is None,
            SessionFailure::Action { context: Some(FailureContext::CloneWriter) } => text matches
            Some(text) && text@ == "failed to clone server socket writer"@,
            SessionFailure::Action { context: Some(FailureContext::CloneReconnectedWriter) } => text
                matches Some(text) && text@ == "failed to clone reconnected server socket writer"@,
        },
{
}

/// What a session waits for next, as long as it goes on: one thing after the other up to
/// the reading of events, then round through a reconnect and back to the reading. Only
/// the server's own account of how the reading ended chooses the way.
pub proof fn session_goes_on_in_order<P>(
    state: SessionState<P>,
    reply: SessionReply<P>,
    step: SessionStep<P>,
)
    requires
        session_accepts(state, reply),
        steps(state, reply, step),
        !(step.state is Finished),
        !(step.state is Failed),
    ensures
        step.state is Connecting <==> state is EnsuringServer,
        step.state is CloningWriter <==> state is Connecting,
        step.state is Subscribing <==> state is CloningWriter,
        step.state is Establishing <==> state is Subscribing,
        step.state is SendingMessage <==> state is Establishing,
        step.state is LocatingSocket <==> state is SendingMessage,
        step.state is Draining <==> state is LocatingSocket || state is Reestablishing,
        step.state is CheckingReloadSocket <==> reply matches SessionReply::Drained {
            outcome: DrainOutcome::Reloading { new_socket: Some(_) },
            ..
        },
        step.state is Reconnecting <==> state is CheckingReloadSocket || (reply matches
        SessionReply::Drained { outcome: DrainOutcome::Disconnected, .. }) || (reply matches
        SessionReply::Drained { outcome: DrainOutcome::Reloading { new_socket: None }, .. }),
        step.state is CloningReconnectedWriter <==> state is Reconnecting,
        step.state is Resubscribing <==> state is CloningReconnectedWriter,
        step.state is Reestablishing <==> state is Resubscribing,
{
}

/// What a session does is what it then waits for: the step's action and its state are
/// two sides of one thing, down to ids, targets, timeouts and the request.
pub proof fn session_does_what_it_waits_for<P>(
    state: SessionState<P>,
    reply: SessionReply<P>,
    step: SessionStep<P>,
)
    requires
        session_accepts(state, reply),
        steps(state, reply, step),
    ensures
        step.state is Connecting ==> step.action == (SessionAction::Connect { timeout_ms: 10_000 }),
        step.state is Reconnecting ==> step.action == (SessionAction::Reconnect {
            timeout_ms: 10_000,
        }),
        step.state is CloningWriter || step.state is CloningReconnectedWriter ==> step.action
            is CloneWriter,
        step.state is LocatingSocket ==> step.action is LocateSocket,
        step.state matches SessionState::Subscribing { draft, next_request_id } ==> next_request_id
            == 1 && step.action == (SessionAction::Subscribe {
            request_id: 1,
            target_session_id: draft.target_session_id,
        }),
        step.state matches SessionState::Resubscribing { live, .. } ==> step.action == (
        SessionAction::Subscribe {
            request_id: live.next_request_id,
            target_session_id: Some(live.session_id),
        }),
        step.state matches SessionState::Draining { live, .. } ==> step.action == (
        SessionAction::Drain {
            next_request_id: live.next_request_id,
            message_request_id: live.message_request_id,
        }),
        step.state matches SessionState::SendingMessage { next_request_id, .. } ==> (step.action
            matches SessionAction::Send { request } && (request matches ServerRequest::Message {
            id,
            content,
            images,
        } && id == next_request_id && Some(content) == option_message(draft_of(state)) && Some(
            images,
        ) == option_images(draft_of(state)))),
        step.state is CheckingReloadSocket ==> (reply matches SessionReply::Drained {
            outcome: DrainOutcome::Reloading { new_socket: Some(new_socket) },
            ..
        } && step.action == (SessionAction::CheckReloadSocket { new_socket })),
        step.state is Establishing || step.state is Reestablishing ==> (
        step.action matches SessionAction::Establish { subscribe_request_id, next_request_id }
            && subscribe_request_id == id_in_hand(state) && next_request_id == id_in_hand(state)
            + 1),
{
}

/// The message of a draft that may be missing.
pub open spec fn option_message(draft: Option<SessionDraft>) -> Option<String> {
    match draft {
        Some(draft) => Some(draft.message),
        None => None,
    }
}

/// The images of a draft that may be missing.
pub open spec fn option_images(draft: Option<SessionDraft>) -> Option<Vec<(String, String)>> {
    match draft {
        Some(draft) => Some(draft.images),
        None => None,
    }
}

/// The id that the state holds for the next request, or for the one under way; zero
/// where it holds none.
pub open spec fn id_in_hand<P>(state: SessionState<P>) -> int {
    match state {
        SessionState::Subscribing { next_request_id, .. } => next_request_id as int,
        SessionState::SendingMessage { next_request_id, .. } => next_request_id as int,
        _ => match live_of(state) {
            Some(live) => live.next_request_id as int,
            None => 0,
        },
    }
}

/// What a session knows, it keeps: the draft until it is sent, the session's id and the
/// message's id from then on, and the socket. It learns the session's id from the answer
/// to its first subscription, the socket from a path that was found for it, and ids from
/// whoever used some; a request that went out takes one.
pub proof fn session_keeps_what_it_knows<P>(
    state: SessionState<P>,
    reply: SessionReply<P>,
    step: SessionStep<P>,
)
    requires
        session_accepts(state, reply),
        steps(state, reply, step),
        !(step.state is Finished),
        !(step.state is Failed),
    ensures
        draft_of(step.state) == if state is Establishing {
            None
        } else {
            draft_of(state)
        },
        session_of(step.state) == match (state, reply) {
            (SessionState::Establishing { .. }, SessionReply::Established { session_id, .. }) => {
                Some(session_id)
            },
            _ => session_of(state),
        },
        message_id_of(step.state) == match (state, reply) {
            (
                SessionState::Establishing { .. },
                SessionReply::Established { next_request_id, .. },
            ) => Some(next_request_id),
            _ => message_id_of(state),
        },
        session_socket(step.state) == match reply {
            SessionReply::Located { socket_path } => Some(socket_path),
            _ => session_socket(state),
        },
        session_of(step.state) is Some ==> id_in_hand(step.state) == match reply {
            SessionReply::Established { next_request_id, .. } => next_request_id as int,
            SessionReply::Drained { next_request_id, .. } => next_request_id as int,
            _ => if state is SendingMessage || state is Resubscribing {
                id_in_hand(state) + 1
            } else {
                id_in_hand(state)
            },
        },
{
}

/// Each thing that the user is told is told on its occasion and on no other: that the
/// server is being connected to, that there is a session and its message goes out, that
/// the server is gone or reloads, and that the session is back.
pub proof fn session_reports_on_its_occasions<P>(
    state: SessionState<P>,
    reply: SessionReply<P>,
    step: SessionStep<P>,
)
    requires
        session_accepts(state, reply),
        steps(state, reply, step),
    ensures
        step.state is Connecting ==> only_status(step.events@, "connecting to shared server"@),
        step.state matches SessionState::SendingMessage { session_id, .. } ==> {
            &&& step.events@.len() == 2
            &&& step.events@[0] matches DesktopSessionEvent::SessionStarted { session_id: reported }
                && reported@ == session_id@
            &&& step.events@[1] matches DesktopSessionEvent::Status(text) && text@
                == "sending message"@
        },
        step.state is Reconnecting ==> only_status(
            step.events@,
            if reply matches SessionReply::Drained { outcome: DrainOutcome::Disconnected, .. } {
                "server disconnected, reconnecting"@
            } else {
                "server reloading, reconnecting"@
            },
        ),
        state is Reestablishing && step.state is Draining ==> {
            &&& step.events@.len() == 1
            &&& session_of(state) is Some
            &&& step.events@[0] matches DesktopSessionEvent::Reloaded { session_id } && session_id@
                == session_of(state)->0@
        },
        step.events@.len() > 0 ==> step.state is Connecting || step.state is SendingMessage
            || step.state is Reconnecting || state is Reestablishing,
{
    let views = event_views(step.events@);
    assert(views.len() == step.events@.len());
    if views.len() > 0 {
        assert(views[0] == step.events@[0]@);
    }
    if views.len() > 1 {
        assert(views[1] == step.events@[1]@);
    }
}

/// A session takes a reply exactly where it waits for one of that kind: any action may
/// fail but the finding of the socket, and a request that goes out needs an id that is
/// not the last.
pub proof fn session_takes_the_replies_it_waits_for<P>(
    state: SessionState<P>,
    reply: SessionReply<P>,
    answer: bool,
)
    requires
        call_ensures(SessionState::<P>::accepts, (&state, &reply), answer),
    ensures
        answer == session_accepts(state, reply),
        reply is Failed ==> answer == !(state is LocatingSocket || state is Finished || state
            is Failed),
        reply is Done ==> answer == ((state is EnsuringServer || state is Connecting || state
            is CloningWriter || state is Reconnecting || state is CloningReconnectedWriter) || ((
        state is Subscribing || state is SendingMessage || state is Resubscribing) && id_in_hand(
            state,
        ) < u64::MAX)),
        reply is Established ==> answer == (state is Establishing || state is Reestablishing),
        reply is Located ==> answer == (state is LocatingSocket || state is CheckingReloadSocket),
        reply is Drained ==> answer == state is Draining,
{
}

/// A live session is asked for its socket exactly where it has one.
pub proof fn live_session_tells_its_socket<P>(state: SessionState<P>, path: Option<&P>)
    requires
        call_ensures(SessionState::<P>::socket_path, (&state,), path),
    ensures
        match state {
            SessionState::Draining { socket_path, .. } => path == Some(&socket_path),
            SessionState::CheckingReloadSocket { socket_path, .. } => path == Some(&socket_path),
            SessionState::Reconnecting { socket_path, .. } => path == Some(&socket_path),
            SessionState::CloningReconnectedWriter { socket_path, .. } => path == Some(
                &socket_path,
            ),
            SessionState::Resubscribing { socket_path, .. } => path == Some(&socket_path),
            SessionState::Reestablishing { socket_path, .. } => path == Some(&socket_path),
            _ => path is None,
        },
{
}

/// A run ends in success after the reply that the message is dealt with, and after no
/// other; it ends in failure after a failed action or an answer for another session, and
/// after nothing else. So a run to which neither has happened is still under way.
pub proof fn run_ends_as_its_last_reply_says<P>(
    draft: SessionDraft,
    replies: Seq<SessionReply<P>>,
    i: int,
)
    requires
        valid_run(draft, replies),
        0 <= i < replies.len(),
    ensures
        session_run(draft, replies)[i + 1].state is Finished <==> replies[i] matches
        SessionReply::Drained { outcome: DrainOutcome::Terminal, .. },
        session_run(draft, replies)[i + 1].action is Finish <==> replies[i] matches
        SessionReply::Drained { outcome: DrainOutcome::Terminal, .. },
        session_run(draft, replies)[i + 1].state is Failed <==> replies[i] is Failed
            || answers_for_another(session_run(draft, replies)[i].state, replies[i]),
        session_run(draft, replies)[i + 1].action is Fail <==> replies[i] is Failed
            || answers_for_another(session_run(draft, replies)[i].state, replies[i]),
{
    step_at(draft, replies, i);
}

/// The phases of a session in the order in which they come.
pub open spec fn phase<P>(state: SessionState<P>) -> int {
    match state {
        SessionState::EnsuringServer { .. } => 0,
        SessionState::Connecting { .. } => 1,
        SessionState::CloningWriter { .. } => 2,
        SessionState::Subscribing { .. } => 3,
        SessionState::Establishing { .. } => 4,
        SessionState::SendingMessage { .. } => 5,
        SessionState::LocatingSocket { .. } => 6,
        SessionState::Finished { .. } => 8,
        SessionState::Failed => 8,
        _ => 7,
    }
}

/// The id of the session, once the server has named it.
pub open spec fn session_of<P>(state: SessionState<P>) -> Option<String> {
    match state {
        SessionState::SendingMessage { session_id, .. } => Some(session_id),
        SessionState::LocatingSocket { live } => Some(live.session_id),
        SessionState::Draining { live, .. } => Some(live.session_id),
        SessionState::CheckingReloadSocket { live, .. } => Some(live.session_id),
        SessionState::Reconnecting { live, .. } => Some(live.session_id),
        SessionState::CloningReconnectedWriter { live, .. } => Some(live.session_id),
        SessionState::Resubscribing { live, .. } => Some(live.session_id),
        SessionState::Reestablishing { live, .. } => Some(live.session_id),
        SessionState::Finished { session_id } => Some(session_id),
        _ => None,
    }
}

/// The draft, while it waits to be sent.
pub open spec fn draft_of<P>(state: SessionState<P>) -> Option<SessionDraft> {
    match state {
        SessionState::EnsuringServer { draft } => Some(draft),
        SessionState::Connecting { draft } => Some(draft),
        SessionState::CloningWriter { draft } => Some(draft),
        SessionState::Subscribing { draft, .. } => Some(draft),
        SessionState::Establishing { draft } => Some(draft),
        _ => None,
    }
}

/// A run has one step more than it has replies, begins with the first step of a
/// session, and each reply leads from one of its steps to the next.
pub proof fn run_follows_its_replies<P>(draft: SessionDraft, replies: Seq<SessionReply<P>>)
    ensures
        session_run(draft, replies).len() == replies.len() + 1,
        session_run(draft, replies)[0] == session_start::<P>(draft),
        forall|i: int|
            0 <= i < replies.len() ==> #[trigger] session_run(draft, replies)[i + 1]
                == session_next(session_run(draft, replies)[i].state, replies[i]),
    decreases replies.len(),
{
    if replies.len() > 0 {
        let earlier = replies.drop_last();
        run_follows_its_replies(draft, earlier);
        let before = session_run(draft, earlier);
        let run = session_run(draft, replies);
        assert forall|i: int| 0 <= i < replies.len() implies #[trigger] run[i + 1] == session_next(
            run[i].state,
            replies[i],
        ) by {
            if i < earlier.len() {
                assert(before[i + 1] == session_next(before[i].state, earlier[i]));
            }
        }
    }
}

/// One step of a valid run: what `run_follows_its_replies` and `valid_run` say of it.
proof fn step_at<P>(draft: SessionDraft, replies: Seq<SessionReply<P>>, i: int)
    requires
        valid_run(draft, replies),
        0 <= i < replies.len(),
    ensures
        ({
            let run = session_run(draft, replies);
            &&& session_accepts(run[i].state, replies[i])
            &&& run[i + 1] == session_next(run[i].state, replies[i])
        }),
{
    run_follows_its_replies(draft, replies);
    let run = session_run(draft, replies);
    assert(run[i + 1] == session_next(run[i].state, replies[i]));
    assert(session_accepts(run[i].state, replies[i]));
}

/// A session only moves forward: it never returns to an earlier phase, and it
/// repeats none but the reading of events and the reconnecting.
pub proof fn phases_only_advance<P>(
    draft: SessionDraft,
    replies: Seq<SessionReply<P>>,
    i: int,
    j: int,
)
    requires
        valid_run(draft, replies),
        0 <= i < j <= replies.len(),
    ensures
        ({
            let earlier = phase(session_run(draft, replies)[i].state);
            let later = phase(session_run(draft, replies)[j].state);
            earlier < later || earlier == 7 && later == 7
        }),
    decreases j,
{
    step_at(draft, replies, j - 1);
    if i < j - 1 {
        phases_only_advance(draft, replies, i, j - 1);
    }
}

/// A session that has finished or failed is over: no reply leads on from there.
pub proof fn ended_session_stays_ended<P>(state: SessionState<P>, reply: SessionReply<P>)
    requires
        state is Finished || state is Failed,
    ensures
        !session_accepts(state, reply),
{
}

/// What a step does is fixed by the state that it leads to.
proof fn action_fits_state<P>(draft: SessionDraft, replies: Seq<SessionReply<P>>, i: int)
    requires
        valid_run(draft, replies),
        0 <= i <= replies.len(),
    ensures
        ({
            let step = session_run(draft, replies)[i];
            &&& step.action is Send <==> step.state is SendingMessage
            &&& step.action is Drain <==> step.state is Draining
            &&& step.action is Finish <==> step.state is Finished
            &&& step.action is Fail <==> step.state is Failed
            &&& step.action is Subscribe <==> (step.state is Subscribing
                || step.state is Resubscribing)
            &&& step.state matches SessionState::Draining { live, .. } ==> step.action == (
            SessionAction::Drain {
                next_request_id: live.next_request_id,
                message_request_id: live.message_request_id,
            })
            &&& step.state matches SessionState::Finished { session_id } ==> step.action == (
            SessionAction::Finish { session_id })
        }),
{
    run_follows_its_replies(draft, replies);
    if i > 0 {
        step_at(draft, replies, i - 1);
    }
}

/// Until the message is sent the draft stays as the user gave it.
proof fn draft_is_kept<P>(draft: SessionDraft, replies: Seq<SessionReply<P>>, i: int)
    requires
        valid_run(draft, replies),
        0 <= i <= replies.len(),
    ensures
        ({
            let state = session_run(draft, replies)[i].state;
            phase(state) < 5 <==> draft_of(state) == Some(draft)
        }),
    decreases i,
{
    run_follows_its_replies(draft, replies);
    if i > 0 {
        step_at(draft, replies, i - 1);
        draft_is_kept(draft, replies, i - 1);
    }
}

/// The message is sent at most once: reconnecting and reloading never send it
/// again. What is sent is the draft, unchanged, and nothing else is.
pub proof fn message_is_sent_at_most_once<P>(
    draft: SessionDraft,
    replies: Seq<SessionReply<P>>,
    i: int,
    j: int,
)
    requires
        valid_run(draft, replies),
        0 <= i <= replies.len(),
        0 <= j <= replies.len(),
        session_run(draft, replies)[i].action is Send,
        session_run(draft, replies)[j].action is Send,
    ensures
        i == j,
        session_run(draft, replies)[i].action matches SessionAction::Send { request }
            && request matches ServerRequest::Message { content, images, .. } && content
            == draft.message && images == draft.images,
{
    action_fits_state(draft, replies, i);
    action_fits_state(draft, replies, j);
    if i < j {
        phases_only_advance(draft, replies, i, j);
    }
    if j < i {
        phases_only_advance(draft, replies, j, i);
    }
    run_follows_its_replies(draft, replies);
    assert(i > 0);
    step_at(draft, replies, i - 1);
    draft_is_kept(draft, replies, i - 1);
}

/// A session that has come to the end of its message has sent it.
pub proof fn finished_session_has_sent_its_message<P>(
    draft: SessionDraft,
    replies: Seq<SessionReply<P>>,
    j: int,
)
    requires
        valid_run(draft, replies),
        0 <= j <= replies.len(),
        session_run(draft, replies)[j].state is Finished,
    ensures
        exists|i: int|
            0 <= i < j && (#[trigger] session_run(draft, replies)[i]).action is Send,
{
    let i = sending_step(draft, replies, j);
    action_fits_state(draft, replies, i);
}

/// The step at which a session that is past sending, and has not failed, sent.
proof fn sending_step<P>(draft: SessionDraft, replies: Seq<SessionReply<P>>, j: int) -> (i: int)
    requires
        valid_run(draft, replies),
        0 <= j <= replies.len(),
        phase(session_run(draft, replies)[j].state) >= 5,
        !(session_run(draft, replies)[j].state is Failed),
    ensures
        0 <= i <= j,
        session_run(draft, replies)[i].state is SendingMessage,
    decreases j,
{
    run_follows_its_replies(draft, replies);
    if session_run(draft, replies)[j].state is SendingMessage {
        j
    } else {
        step_at(draft, replies, j - 1);
        sending_step(draft, replies, j - 1)
    }
}

/// Once the server has named the session, the id stays the same to the end,
/// across every reconnect, unless the session fails.
pub proof fn session_id_is_kept<P>(
    draft: SessionDraft,
    replies: Seq<SessionReply<P>>,
    i: int,
    j: int,
)
    requires
        valid_run(draft, replies),
        0 <= i <= j <= replies.len(),
        session_of(session_run(draft, replies)[i].state) is Some,
        !(session_run(draft, replies)[j].state is Failed),
    ensures
        session_of(session_run(draft, replies)[j].state) == session_of(
            session_run(draft, replies)[i].state,
        ),
    decreases j,
{
    if i < j {
        step_at(draft, replies, j - 1);
        session_id_is_kept(draft, replies, i, j - 1);
    }
}

/// The start of the session is reported at most once, with the id that the
/// session then has, and in the very step that sends the message.
pub proof fn session_start_is_reported_once<P>(
    draft: SessionDraft,
    replies: Seq<SessionReply<P>>,
    i: int,
    j: int,
    a: Seq<char>,
    b: Seq<char>,
)
    requires
        valid_run(draft, replies),
        0 <= i <= replies.len(),
        0 <= j <= replies.len(),
        session_run(draft, replies)[i].events.contains(EventView::SessionStarted { session_id: a }),
        session_run(draft, replies)[j].events.contains(EventView::SessionStarted { session_id: b }),
    ensures
        i == j,
        a == b,
        session_run(draft, replies)[i].action is Send,
        session_of(session_run(draft, replies)[i].state) matches Some(id) && id@ == a,
{
    started_event_fits_state(draft, replies, i, a);
    started_event_fits_state(draft, replies, j, b);
    action_fits_state(draft, replies, i);
    action_fits_state(draft, replies, j);
    message_is_sent_at_most_once(draft, replies, i, j);
}

proof fn started_event_fits_state<P>(
    draft: SessionDraft,
    replies: Seq<SessionReply<P>>,
    i: int,
    session_id: Seq<char>,
)
    requires
        valid_run(draft, replies),
        0 <= i <= replies.len(),
        session_run(draft, replies)[i].events.contains(EventView::SessionStarted { session_id }),
    ensures
        session_run(draft, replies)[i].state matches SessionState::SendingMessage {
            session_id: id,
            ..
        } && id@ == session_id,
{
    run_follows_its_replies(draft, replies);
    if i > 0 {
        step_at(draft, replies, i - 1);
    }
}

/// A session returns the id that it reported at its start.
pub proof fn session_returns_the_reported_id<P>(
    draft: SessionDraft,
    replies: Seq<SessionReply<P>>,
    i: int,
    j: int,
    reported: Seq<char>,
    returned: String,
)
    requires
        valid_run(draft, replies),
        0 <= i <= replies.len(),
        0 <= j <= replies.len(),
        session_run(draft, replies)[i].events.contains(
            (EventView::SessionStarted { session_id: reported }),
        ),
        session_run(draft, replies)[j].action == (SessionAction::Finish { session_id: returned }),
    ensures
        returned@ == reported,
{
    started_event_fits_state(draft, replies, i, reported);
    action_fits_state(draft, replies, j);
    if j < i {
        phases_only_advance(draft, replies, j, i);
    }
    session_id_is_kept(draft, replies, i, j);
}

/// The first subscription asks for the session that the user chose. Every later
/// one asks for the session that the server named.
pub proof fn subscriptions_stay_on_the_session<P>(
    draft: SessionDraft,
    replies: Seq<SessionReply<P>>,
    i: int,
    request_id: u64,
    target: Option<String>,
)
    requires
        valid_run(draft, replies),
        0 <= i <= replies.len(),
        session_run(draft, replies)[i].action == (SessionAction::Subscribe {
            request_id,
            target_session_id: target,
        }),
    ensures
        phase(session_run(draft, replies)[i].state) < 5 ==> request_id == 1 && target
            == draft.target_session_id,
        phase(session_run(draft, replies)[i].state) >= 5 ==> target is Some && target
            == session_of(session_run(draft, replies)[i].state),
{
    run_follows_its_replies(draft, replies);
    if i > 0 {
        step_at(draft, replies, i - 1);
        draft_is_kept(draft, replies, i - 1);
    }
}

/// Every reading of events waits for the end of the request that carried the
/// message, on whatever connection.
pub proof fn events_are_read_for_the_message<P>(
    draft: SessionDraft,
    replies: Seq<SessionReply<P>>,
    i: int,
    j: int,
    request: ServerRequest,
    next_request_id: u64,
    message_request_id: u64,
)
    requires
        valid_run(draft, replies),
        0 <= i <= replies.len(),
        0 <= j <= replies.len(),
        session_run(draft, replies)[i].action == (SessionAction::Send { request }),
        session_run(draft, replies)[j].action == (SessionAction::Drain {
            next_request_id,
            message_request_id,
        }),
    ensures
        i < j,
        message_request_id == request@.id(),
{
    action_fits_state(draft, replies, i);
    action_fits_state(draft, replies, j);
    if j < i {
        phases_only_advance(draft, replies, j, i);
    }
    run_follows_its_replies(draft, replies);
    step_at(draft, replies, i - 1);
    message_id_is_kept(draft, replies, i, j);
}

/// The id of the request that carried the message, once it is on its way.
pub open spec fn message_id_of<P>(state: SessionState<P>) -> Option<u64> {
    match state {
        SessionState::SendingMessage { next_request_id, .. } => Some(next_request_id),
        _ => match live_of(state) {
            Some(live) => Some(live.message_request_id),
            None => None,
        },
    }
}

/// The live session of a state that has one.
pub open spec fn live_of<P>(state: SessionState<P>) -> Option<LiveSession> {
    match state {
        SessionState::LocatingSocket { live } => Some(live),
        SessionState::Draining { live, .. } => Some(live),
        SessionState::CheckingReloadSocket { live, .. } => Some(live),
        SessionState::Reconnecting { live, .. } => Some(live),
        SessionState::CloningReconnectedWriter { live, .. } => Some(live),
        SessionState::Resubscribing { live, .. } => Some(live),
        SessionState::Reestablishing { live, .. } => Some(live),
        _ => None,
    }
}

proof fn message_id_is_kept<P>(draft: SessionDraft, replies: Seq<SessionReply<P>>, i: int, j: int)
    requires
        valid_run(draft, replies),
        0 <= i <= j <= replies.len(),
        message_id_of(session_run(draft, replies)[i].state) is Some,
        phase(session_run(draft, replies)[j].state) < 8,
    ensures
        message_id_of(session_run(draft, replies)[j].state) == message_id_of(
            session_run(draft, replies)[i].state,
        ),
    decreases j,
{
    if i < j {
        step_at(draft, replies, j - 1);
        message_id_is_kept(draft, replies, i, j - 1);
    }
}

/// The id of the request that an action sends.
pub open spec fn request_id_of(action: SessionAction) -> Option<u64> {
    match action {
        SessionAction::Subscribe { request_id, .. } => Some(request_id),
        SessionAction::Send { request } => Some(request@.id()),
        _ => None,
    }
}

/// The reading of replies and events never hands an id back that it was told is
/// taken.
pub open spec fn ids_never_go_back<P>(draft: SessionDraft, replies: Seq<SessionReply<P>>) -> bool {
    forall|i: int|
        0 <= i < replies.len() ==> match (
            (#[trigger] session_run(draft, replies)[i]).action,
            replies[i],
        ) {
            (
                SessionAction::Establish { next_request_id: handed, .. },
                SessionReply::Established { next_request_id: back, .. },
            ) => handed <= back,
            (
                SessionAction::Drain { next_request_id: handed, .. },
                SessionReply::Drained { next_request_id: back, .. },
            ) => handed <= back,
            _ => true,
        }
}

/// The least id that a request after this step may have.
spec fn least_free_id<P>(step: SessionStepView<P>) -> int {
    match step.action {
        SessionAction::Subscribe { request_id, .. } => request_id + 1,
        SessionAction::Send { request } => request@.id() + 1,
        SessionAction::Establish { next_request_id, .. } => next_request_id as int,
        _ => match live_of(step.state) {
            Some(live) => live.next_request_id as int,
            None => 0,
        },
    }
}

/// No two requests of a session share an id, and later ones have greater ids.
pub proof fn request_ids_increase<P>(
    draft: SessionDraft,
    replies: Seq<SessionReply<P>>,
    i: int,
    j: int,
)
    requires
        valid_run(draft, replies),
        ids_never_go_back(draft, replies),
        0 <= i < j <= replies.len(),
        request_id_of(session_run(draft, replies)[i].action) is Some,
        request_id_of(session_run(draft, replies)[j].action) is Some,
    ensures
        request_id_of(session_run(draft, replies)[i].action)->0 < request_id_of(
            session_run(draft, replies)[j].action,
        )->0,
{
    action_fits_state(draft, replies, j);
    free_ids_only_grow(draft, replies, i, j - 1);
    ids_in_hand(draft, replies, j - 1);
}

/// A step keeps clear of the ids that were taken before it.
proof fn ids_in_hand<P>(draft: SessionDraft, replies: Seq<SessionReply<P>>, i: int)
    requires
        valid_run(draft, replies),
        ids_never_go_back(draft, replies),
        0 <= i < replies.len(),
    ensures
        ({
            let run = session_run(draft, replies);
            &&& phase(run[i + 1].state) < 8 ==> least_free_id(run[i]) <= least_free_id(run[i + 1])
            &&& request_id_of(run[i + 1].action) matches Some(id) ==> least_free_id(run[i]) <= id
        }),
{
    run_follows_its_replies(draft, replies);
    action_matches_counter(draft, replies, i);
    step_at(draft, replies, i);
}

/// The ids that a step hands out are those that its state holds.
proof fn action_matches_counter<P>(draft: SessionDraft, replies: Seq<SessionReply<P>>, i: int)
    requires
        valid_run(draft, replies),
        0 <= i <= replies.len(),
    ensures
        ({
            let step = session_run(draft, replies)[i];
            match step.state {
                SessionState::Subscribing { next_request_id, .. } => request_id_of(step.action)
                    == Some(next_request_id),
                SessionState::SendingMessage { next_request_id, .. } => request_id_of(step.action)
                    == Some(next_request_id),
                SessionState::Resubscribing { live, .. } => request_id_of(step.action) == Some(
                    live.next_request_id,
                ),
                SessionState::Establishing { .. } => step.action is Establish,
                SessionState::Reestablishing { live, .. } => step.action matches
                SessionAction::Establish { next_request_id, .. } && next_request_id
                    == live.next_request_id,
                SessionState::Draining { live, .. } => step.action matches SessionAction::Drain {
                    next_request_id,
                    ..
                } && next_request_id == live.next_request_id,
                _ => !(step.action is Subscribe) && !(step.action is Send) && !(
                step.action is Establish),
            }
        }),
{
    run_follows_its_replies(draft, replies);
    if i > 0 {
        step_at(draft, replies, i - 1);
    }
}

proof fn free_ids_only_grow<P>(draft: SessionDraft, replies: Seq<SessionReply<P>>, i: int, j: int)
    requires
        valid_run(draft, replies),
        ids_never_go_back(draft, replies),
        0 <= i <= j < replies.len(),
    ensures
        least_free_id(session_run(draft, replies)[i]) <= least_free_id(
            session_run(draft, replies)[j],
        ),
    decreases j,
{
    if i < j {
        step_at(draft, replies, j);
        free_ids_only_grow(draft, replies, i, j - 1);
        ids_in_hand(draft, replies, j - 1);
    }
}

/// A live session moves to another socket only when the server announced one and
/// the check of it gave that path.
pub proof fn socket_changes_only_after_a_check<P>(
    draft: SessionDraft,
    replies: Seq<SessionReply<P>>,
    i: int,
    before: P,
    after: P,
)
    requires
        valid_run(draft, replies),
        0 <= i < replies.len(),
        session_socket(session_run(draft, replies)[i].state) == Some(before),
        session_socket(session_run(draft, replies)[i + 1].state) == Some(after),
        before != after,
    ensures
        session_run(draft, replies)[i].action is CheckReloadSocket,
        replies[i] == (SessionReply::Located { socket_path: after }),
        i > 0,
        replies[i - 1] matches SessionReply::Drained {
            outcome: DrainOutcome::Reloading { new_socket: Some(announced) },
            ..
        } && session_run(draft, replies)[i].action == (SessionAction::CheckReloadSocket {
            new_socket: announced,
        }),
{
    step_at(draft, replies, i);
    run_follows_its_replies(draft, replies);
    assert(i > 0);
    step_at(draft, replies, i - 1);
}

/// A reconnect is reported only for the session itself: an answer for another
/// session fails the run, and names both ids.
pub proof fn other_session_is_refused<P>(
    draft: SessionDraft,
    replies: Seq<SessionReply<P>>,
    i: int,
    answered: String,
    next_request_id: u64,
)
    requires
        valid_run(draft, replies),
        0 <= i < replies.len(),
        session_run(draft, replies)[i].state is Reestablishing,
        replies[i] == (SessionReply::<P>::Established { session_id: answered, next_request_id }),
    ensures
        session_of(session_run(draft, replies)[i].state) is Some,
        ({
            let session_id = session_of(session_run(draft, replies)[i].state)->0;
            let step = session_run(draft, replies)[i + 1];
            if answered@ == session_id@ {
                &&& step.events == seq![EventView::Reloaded { session_id: session_id@ }]
                &&& step.state is Draining
                &&& session_of(step.state) == Some(session_id)
            } else {
                &&& step.events == Seq::<EventView>::empty()
                &&& step.action == (SessionAction::Fail {
                    failure: SessionFailure::UnexpectedSession {
                        expected: session_id,
                        got: answered,
                    },
                })
            }
        }),
{
    step_at(draft, replies, i);
}

/// The replies of a session that nothing disturbs.
pub open spec fn undisturbed_replies<P>(
    session_id: String,
    message_id: u64,
    socket_path: P,
    last_id: u64,
) -> Seq<SessionReply<P>> {
    seq![
        SessionReply::Done,
        SessionReply::Done,
        SessionReply::Done,
        SessionReply::Done,
        SessionReply::Established { session_id, next_request_id: message_id },
        SessionReply::Done,
        SessionReply::Located { socket_path },
        SessionReply::Drained { outcome: DrainOutcome::Terminal, next_request_id: last_id },
    ]
}

/// A session that nothing disturbs sends its message and returns the id that the
/// server gave it, whatever the draft. On the way it reports that it starts the
/// server, connects, has a session and sends.
pub proof fn undisturbed_session_finishes<P>(
    draft: SessionDraft,
    session_id: String,
    message_id: u64,
    socket_path: P,
    last_id: u64,
)
    requires
        message_id < u64::MAX,
    ensures
        ({
            let replies = undisturbed_replies(session_id, message_id, socket_path, last_id);
            let run = session_run(draft, replies);
            &&& valid_run(draft, replies)
            &&& run.last().action == (SessionAction::Finish { session_id })
            &&& run[5].action == (SessionAction::Send {
                request: ServerRequest::Message {
                    id: message_id,
                    content: draft.message,
                    images: draft.images,
                },
            })
            &&& run[0].events == seq![EventView::Status("starting shared server"@)]
            &&& run[1].events == seq![EventView::Status("connecting to shared server"@)]
            &&& run[5].events == seq![
                EventView::SessionStarted { session_id: session_id@ },
                EventView::Status("sending message"@),
            ]
            &&& forall|i: int|
                0 <= i < run.len() && i != 0 && i != 1 && i != 5 ==> (#[trigger] run[i]).events
                    == Seq::<EventView>::empty()
        }),
{
    let replies = undisturbed_replies(session_id, message_id, socket_path, last_id);
    let run = session_run(draft, replies);
    run_follows_its_replies(draft, replies);
    assert(run[0int + 1] == session_next(run[0].state, replies[0]));
    assert(run[1int + 1] == session_next(run[1].state, replies[1]));
    assert(run[2int + 1] == session_next(run[2].state, replies[2]));
    assert(run[3int + 1] == session_next(run[3].state, replies[3]));
    assert(run[4int + 1] == session_next(run[4].state, replies[4]));
    assert(run[5int + 1] == session_next(run[5].state, replies[5]));
    assert(run[6int + 1] == session_next(run[6].state, replies[6]));
    assert(run[7int + 1] == session_next(run[7].state, replies[7]));
}

/// A lost connection costs a session nothing but ids: once the server has answered
/// for it again, it reads events as before, for the same message on the same
/// socket, having reported the loss and the recovery.
pub proof fn reconnect_returns_to_the_session<P>(
    live: LiveSession,
    socket_path: P,
    subscribe_id: u64,
    next_id: u64,
    answered: String,
)
    requires
        subscribe_id < u64::MAX,
        answered@ == live.session_id@,
    ensures
        ({
            let lost: SessionReply<P> = SessionReply::Drained {
                outcome: DrainOutcome::Disconnected,
                next_request_id: subscribe_id,
            };
            let again: SessionReply<P> = SessionReply::Established {
                session_id: answered,
                next_request_id: next_id,
            };
            let draining = SessionState::Draining { live, socket_path };
            let reconnecting = session_next(draining, lost);
            let cloning = session_next(reconnecting.state, SessionReply::Done);
            let subscribing = session_next(cloning.state, SessionReply::Done);
            let establishing = session_next(subscribing.state, SessionReply::Done);
            let back = session_next(establishing.state, again);
            &&& session_accepts(draining, lost)
            &&& session_accepts(reconnecting.state, SessionReply::Done)
            &&& session_accepts(cloning.state, SessionReply::Done)
            &&& session_accepts(subscribing.state, SessionReply::Done)
            &&& session_accepts(establishing.state, again)
            &&& subscribing.action == (SessionAction::Subscribe {
                request_id: subscribe_id,
                target_session_id: Some(live.session_id),
            })
            &&& back.state == (SessionState::Draining {
                live: LiveSession { next_request_id: next_id, ..live },
                socket_path,
            })
            &&& reconnecting.events == seq![
                EventView::Status("server disconnected, reconnecting"@),
            ]
            &&& back.events == seq![EventView::Reloaded { session_id: live.session_id@ }]
        }),
{
}

} // verus!
