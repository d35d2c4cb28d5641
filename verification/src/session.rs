//! A session with the shared server: one message, followed to its end across
//! lost connections and server reloads.
//!
//! The session is a state machine. Each step names the next thing to do and the
//! events to report before it; what came of it is the reply that drives the next
//! step. The socket's path has whatever type `P` the caller keeps paths in.

use vstd::prelude::*;
use vstd::string::*;

use crate::event::{event_views, DesktopSessionEvent, EventView};
use crate::platform::{Platform, ServerFeature};
use crate::request::ServerRequest;

verus! {

/// How long the shared server may take to come up, in milliseconds.
pub const SERVER_START_TIMEOUT_MS: u64 = 10_000;

/// How long to wait before trying the server's socket again, in milliseconds.
pub const SERVER_CONNECT_RETRY_DELAY_MS: u64 = 50;

/// What the user wants sent, and to which session.
#[derive(Clone, Debug, Eq, PartialEq)]
pub struct SessionDraft {
    /// The session to resume, or none for a fresh one.
    pub target_session_id: Option<String>,
    pub message: String,
    pub images: Vec<(String, String)>,
}

/// A session that has taken its message.
#[derive(Clone, Debug, Eq, PartialEq)]
pub struct LiveSession {
    pub session_id: String,
    /// The id of the request that carried the message.
    pub message_request_id: u64,
    /// The id that the next request gets.
    pub next_request_id: u64,
}

/// Where a session stands: what is being done right now.
#[derive(Clone, Debug, Eq, PartialEq)]
pub enum SessionState<P> {
    EnsuringServer { draft: SessionDraft },
    Connecting { draft: SessionDraft },
    CloningWriter { draft: SessionDraft },
    Subscribing { draft: SessionDraft, next_request_id: u64 },
    Establishing { draft: SessionDraft },
    SendingMessage { session_id: String, next_request_id: u64 },
    LocatingSocket { live: LiveSession },
    Draining { live: LiveSession, socket_path: P },
    CheckingReloadSocket { live: LiveSession, socket_path: P },
    Reconnecting { live: LiveSession, socket_path: P },
    CloningReconnectedWriter { live: LiveSession, socket_path: P },
    Resubscribing { live: LiveSession, socket_path: P },
    Reestablishing { live: LiveSession, socket_path: P },
    Finished { session_id: String },
    Failed,
}

/// How the reading of a connection's events ended.
#[derive(Clone, Debug, Eq, PartialEq)]
pub enum DrainOutcome {
    /// The message has been dealt with.
    Terminal,
    /// The connection was lost.
    Disconnected,
    /// The server restarts, perhaps on another socket.
    Reloading { new_socket: Option<String> },
}

/// What came of an action.
#[derive(Clone, Debug, Eq, PartialEq)]
pub enum SessionReply<P> {
    /// It was done.
    Done,
    /// The server named the session; requests go on from `next_request_id`.
    Established { session_id: String, next_request_id: u64 },
    /// The path of the socket to use from now on.
    Located { socket_path: P },
    /// The connection's events were read; requests go on from `next_request_id`.
    Drained { outcome: DrainOutcome, next_request_id: u64 },
    /// It failed, with an error that the caller keeps.
    Failed,
}

/// What is added to the error of a failed action.
#[derive(Clone, Copy, Debug, PartialEq, Eq, Structural)]
pub enum FailureContext {
    CloneWriter,
    CloneReconnectedWriter,
}

/// Why a session failed.
#[derive(Clone, Debug, Eq, PartialEq)]
pub enum SessionFailure {
    /// An action failed: its own error holds, under the context if there is one.
    Action { context: Option<FailureContext> },
    /// The server answered for another session after a reconnect.
    UnexpectedSession { expected: String, got: String },
}

/// What a session does next.
#[derive(Clone, Debug, Eq, PartialEq)]
pub enum SessionAction {
    /// Start the shared server unless it runs.
    EnsureServerRunning,
    /// Connect to the server's own socket.
    Connect { timeout_ms: u64 },
    /// Clone the connection for writing.
    CloneWriter,
    /// Subscribe, to a given session or to a fresh one.
    Subscribe { request_id: u64, target_session_id: Option<String> },
    /// Read until the server has named the session.
    Establish { subscribe_request_id: u64, next_request_id: u64 },
    /// Send a request.
    Send { request: ServerRequest },
    /// Find the path of the server's socket.
    LocateSocket,
    /// Read the connection's events, and pass commands on.
    Drain { next_request_id: u64, message_request_id: u64 },
    /// Check the socket that the server moves to against the one it was on.
    CheckReloadSocket { new_socket: String },
    /// Connect to the socket at the state's path.
    Reconnect { timeout_ms: u64 },
    /// Return the session's id.
    Finish { session_id: String },
    /// Return an error.
    Fail { failure: SessionFailure },
}

/// One step: the new state, the events to report, and then what to do.
#[derive(Clone, Debug, Eq, PartialEq)]
pub struct SessionStep<P> {
    pub state: SessionState<P>,
    pub events: Vec<DesktopSessionEvent>,
    pub action: SessionAction,
}

/// A [`SessionStep`] with its events as views.
pub ghost struct SessionStepView<P> {
    pub state: SessionState<P>,
    pub events: Seq<EventView>,
    pub action: SessionAction,
}

impl<P> View for SessionStep<P> {
    type V = SessionStepView<P>;

    open spec fn view(&self) -> SessionStepView<P> {
        SessionStepView {
            state: self.state,
            events: event_views(self.events@),
            action: self.action,
        }
    }
}

/// The reply answers what the state waits for, and the ids do not run out.
pub open spec fn session_accepts<P>(state: SessionState<P>, reply: SessionReply<P>) -> bool {
    match state {
        SessionState::EnsuringServer { .. } => reply is Done || reply is Failed,
        SessionState::Connecting { .. } => reply is Done || reply is Failed,
        SessionState::CloningWriter { .. } => reply is Done || reply is Failed,
        SessionState::Subscribing { next_request_id, .. } => (reply is Done && next_request_id
            < u64::MAX) || reply is Failed,
        SessionState::Establishing { .. } => reply is Established || reply is Failed,
        SessionState::SendingMessage { next_request_id, .. } => (reply is Done && next_request_id
            < u64::MAX) || reply is Failed,
        SessionState::LocatingSocket { .. } => reply is Located,
        SessionState::Draining { .. } => reply is Drained || reply is Failed,
        SessionState::CheckingReloadSocket { .. } => reply is Located || reply is Failed,
        SessionState::Reconnecting { .. } => reply is Done || reply is Failed,
        SessionState::CloningReconnectedWriter { .. } => reply is Done || reply is Failed,
        SessionState::Resubscribing { live, .. } => (reply is Done && live.next_request_id
            < u64::MAX) || reply is Failed,
        SessionState::Reestablishing { .. } => reply is Established || reply is Failed,
        SessionState::Finished { .. } => false,
        SessionState::Failed => false,
    }
}

/// The first step of a session.
pub open spec fn session_start<P>(draft: SessionDraft) -> SessionStepView<P> {
    SessionStepView {
        state: SessionState::EnsuringServer { draft },
        events: seq![EventView::Status("starting shared server"@)],
        action: SessionAction::EnsureServerRunning,
    }
}

/// The step after a failed action.
pub open spec fn failed_step<P>(failure: SessionFailure) -> SessionStepView<P> {
    SessionStepView {
        state: SessionState::Failed,
        events: seq![],
        action: SessionAction::Fail { failure },
    }
}

/// What is added to the error of the action that `state` waits for.
pub open spec fn failure_context<P>(state: SessionState<P>) -> Option<FailureContext> {
    match state {
        SessionState::CloningWriter { .. } => Some(FailureContext::CloneWriter),
        SessionState::CloningReconnectedWriter { .. } => Some(
            FailureContext::CloneReconnectedWriter,
        ),
        _ => None,
    }
}

/// Back to the server, on the socket at `socket_path`.
pub open spec fn reconnect_step<P>(
    live: LiveSession,
    socket_path: P,
    status: Seq<char>,
) -> SessionStepView<P> {
    SessionStepView {
        state: SessionState::Reconnecting { live, socket_path },
        events: seq![EventView::Status(status)],
        action: SessionAction::Reconnect { timeout_ms: SERVER_START_TIMEOUT_MS },
    }
}

/// On to reading events.
pub open spec fn drain_step<P>(
    live: LiveSession,
    socket_path: P,
    events: Seq<EventView>,
) -> SessionStepView<P> {
    SessionStepView {
        state: SessionState::Draining { live, socket_path },
        events,
        action: SessionAction::Drain {
            next_request_id: live.next_request_id,
            message_request_id: live.message_request_id,
        },
    }
}

/// The path of the socket that a live session is on.
pub open spec fn session_socket<P>(state: SessionState<P>) -> Option<P> {
    match state {
        SessionState::Draining { socket_path, .. } => Some(socket_path),
        SessionState::CheckingReloadSocket { socket_path, .. } => Some(socket_path),
        SessionState::Reconnecting { socket_path, .. } => Some(socket_path),
        SessionState::CloningReconnectedWriter { socket_path, .. } => Some(socket_path),
        SessionState::Resubscribing { socket_path, .. } => Some(socket_path),
        SessionState::Reestablishing { socket_path, .. } => Some(socket_path),
        _ => None,
    }
}

/// The step that `reply` leads to from `state`.
pub open spec fn session_next<P>(
    state: SessionState<P>,
    reply: SessionReply<P>,
) -> SessionStepView<P> {
    match (state, reply) {
        (_, SessionReply::Failed) => failed_step(
            SessionFailure::Action { context: failure_context(state) },
        ),
        (SessionState::EnsuringServer { draft }, _) => SessionStepView {
            state: SessionState::Connecting { draft },
            events: seq![EventView::Status("connecting to shared server"@)],
            action: SessionAction::Connect { timeout_ms: SERVER_START_TIMEOUT_MS },
        },
        (SessionState::Connecting { draft }, _) => SessionStepView {
            state: SessionState::CloningWriter { draft },
            events: seq![],
            action: SessionAction::CloneWriter,
        },
        (SessionState::CloningWriter { draft }, _) => SessionStepView {
            state: SessionState::Subscribing { draft, next_request_id: 1 },
            events: seq![],
            action: SessionAction::Subscribe {
                request_id: 1,
                target_session_id: draft.target_session_id,
            },
        },
        (SessionState::Subscribing { draft, next_request_id }, _) => SessionStepView {
            state: SessionState::Establishing { draft },
            events: seq![],
            action: SessionAction::Establish {
                subscribe_request_id: next_request_id,
                next_request_id: (next_request_id + 1) as u64,
            },
        },
        (
            SessionState::Establishing { draft },
            SessionReply::Established { session_id, next_request_id },
        ) => SessionStepView {
            state: SessionState::SendingMessage { session_id, next_request_id },
            events: seq![
                EventView::SessionStarted { session_id: session_id@ },
                EventView::Status("sending message"@),
            ],
            action: SessionAction::Send {
                request: ServerRequest::Message {
                    id: next_request_id,
                    content: draft.message,
                    images: draft.images,
                },
            },
        },
        (SessionState::SendingMessage { session_id, next_request_id }, _) => SessionStepView {
            state: SessionState::LocatingSocket {
                live: LiveSession {
                    session_id,
                    message_request_id: next_request_id,
                    next_request_id: (next_request_id + 1) as u64,
                },
            },
            events: seq![],
            action: SessionAction::LocateSocket,
        },
        (SessionState::LocatingSocket { live }, SessionReply::Located { socket_path }) => {
            drain_step(live, socket_path, seq![])
        },
        (
            SessionState::Draining { live, socket_path },
            SessionReply::Drained { outcome, next_request_id },
        ) => {
            let drained = LiveSession { next_request_id, ..live };
            match outcome {
                DrainOutcome::Terminal => SessionStepView {
                    state: SessionState::Finished { session_id: live.session_id },
                    events: seq![],
                    action: SessionAction::Finish { session_id: live.session_id },
                },
                DrainOutcome::Disconnected => reconnect_step(
                    drained,
                    socket_path,
                    "server disconnected, reconnecting"@,
                ),
                DrainOutcome::Reloading { new_socket: None } => reconnect_step(
                    drained,
                    socket_path,
                    "server reloading, reconnecting"@,
                ),
                DrainOutcome::Reloading { new_socket: Some(new_socket) } => SessionStepView {
                    state: SessionState::CheckingReloadSocket { live: drained, socket_path },
                    events: seq![],
                    action: SessionAction::CheckReloadSocket { new_socket },
                },
            }
        },
        (
            SessionState::CheckingReloadSocket { live, .. },
            SessionReply::Located { socket_path },
        ) => reconnect_step(live, socket_path, "server reloading, reconnecting"@),
        (SessionState::Reconnecting { live, socket_path }, _) => SessionStepView {
            state: SessionState::CloningReconnectedWriter { live, socket_path },
            events: seq![],
            action: SessionAction::CloneWriter,
        },
        (SessionState::CloningReconnectedWriter { live, socket_path }, _) => SessionStepView {
            state: SessionState::Resubscribing { live, socket_path },
            events: seq![],
            action: SessionAction::Subscribe {
                request_id: live.next_request_id,
                target_session_id: Some(live.session_id),
            },
        },
        (SessionState::Resubscribing { live, socket_path }, _) => {
            let subscribed = LiveSession {
                next_request_id: (live.next_request_id + 1) as u64,
                ..live
            };
            SessionStepView {
                state: SessionState::Reestablishing { live: subscribed, socket_path },
                events: seq![],
                action: SessionAction::Establish {
                    subscribe_request_id: live.next_request_id,
                    next_request_id: subscribed.next_request_id,
                },
            }
        },
        (
            SessionState::Reestablishing { live, socket_path },
            SessionReply::Established { session_id, next_request_id },
        ) => if session_id@ == live.session_id@ {
            drain_step(
                LiveSession { next_request_id, ..live },
                socket_path,
                seq![EventView::Reloaded { session_id: session_id@ }],
            )
        } else {
            failed_step(
                SessionFailure::UnexpectedSession { expected: live.session_id, got: session_id },
            )
        },
        _ => arbitrary(),
    }
}

fn one_event(event: DesktopSessionEvent) -> (events: Vec<DesktopSessionEvent>)
    ensures
        event_views(events@) == seq![event@],
{
    let mut events: Vec<DesktopSessionEvent> = Vec::new();
    events.push(event);
    assert(event_views(events@) =~= seq![event@]);
    events
}

fn no_events() -> (events: Vec<DesktopSessionEvent>)
    ensures
        event_views(events@) == Seq::<EventView>::empty(),
{
    let events: Vec<DesktopSessionEvent> = Vec::new();
    assert(event_views(events@) =~= seq![]);
    events
}

fn fail<P>(failure: SessionFailure) -> (step: SessionStep<P>)
    ensures
        step@ == failed_step::<P>(failure),
{
    SessionStep {
        state: SessionState::Failed,
        events: no_events(),
        action: SessionAction::Fail { failure },
    }
}

fn reconnect<P>(live: LiveSession, socket_path: P, status: &str) -> (step: SessionStep<P>)
    ensures
        step@ == reconnect_step(live, socket_path, status@),
{
    SessionStep {
        state: SessionState::Reconnecting { live, socket_path },
        events: one_event(DesktopSessionEvent::Status(status.to_string())),
        action: SessionAction::Reconnect { timeout_ms: SERVER_START_TIMEOUT_MS },
    }
}

fn drain<P>(live: LiveSession, socket_path: P, events: Vec<DesktopSessionEvent>) -> (step:
    SessionStep<P>)
    ensures
        step@ == drain_step(live, socket_path, event_views(events@)),
{
    let next_request_id: u64 = live.next_request_id;
    let message_request_id: u64 = live.message_request_id;
    SessionStep {
        state: SessionState::Draining { live, socket_path },
        events,
        action: SessionAction::Drain { next_request_id, message_request_id },
    }
}

impl FailureContext {
    /// The sentence that the context adds.
    pub open spec fn text(self) -> Seq<char> {
        match self {
            FailureContext::CloneWriter => "failed to clone server socket writer"@,
            FailureContext::CloneReconnectedWriter => {
                "failed to clone reconnected server socket writer"@
            },
        }
    }

    /// The sentence that the context adds.
    pub fn message(self) -> (text: &'static str)
        ensures
            text@ == self.text(),
    {
        match self {
            FailureContext::CloneWriter => "failed to clone server socket writer",
            FailureContext::CloneReconnectedWriter => {
                "failed to clone reconnected server socket writer"
            },
        }
    }
}

/// The sentence that reports an answer for another session.
pub open spec fn unexpected_session_text(expected: Seq<char>, got: Seq<char>) -> Seq<char> {
    "jcode server reconnected to unexpected session id: expected "@ + expected + ", got "@ + got
}

impl SessionFailure {
    /// The sentence that the failure itself adds to the error, if any.
    pub fn message(&self) -> (text: Option<String>)
        ensures
            match *self {
                SessionFailure::Action { context: None } => text is None,
                SessionFailure::Action { context: Some(context) } => text is Some && text->0@
                    == context.text(),
                SessionFailure::UnexpectedSession { expected, got } => text is Some && text->0@
                    == unexpected_session_text(expected@, got@),
            },
    {
        match self {
            SessionFailure::Action { context: None } => None,
            SessionFailure::Action { context: Some(context) } => Some(
                context.message().to_string(),
            ),
            SessionFailure::UnexpectedSession { expected, got } => Some(
                "jcode server reconnected to unexpected session id: expected ".to_string().concat(
                    expected.as_str(),
                ).concat(", got ").concat(got.as_str()),
            ),
        }
    }
}

fn copy_optional_text(text: &Option<String>) -> (copy: Option<String>)
    ensures
        copy == *text,
{
    match text {
        Some(text) => Some(text.clone()),
        None => None,
    }
}

/// Starts a session that sends `message` and `images`, to the session
/// `target_session_id` or to a fresh one. Fails where the server is out of reach.
pub fn run_server_session<P>(
    platform: Platform,
    target_session_id: Option<String>,
    message: String,
    images: Vec<(String, String)>,
) -> (started: Result<SessionStep<P>, ServerFeature>)
    ensures
        match platform {
            Platform::Unix => started is Ok && started->Ok_0@ == session_start::<P>(
                SessionDraft { target_session_id, message, images },
            ),
            Platform::Other => started is Err && started->Err_0 == ServerFeature::Sessions,
        },
{
    match platform {
        Platform::Unix => Ok(
            SessionStep {
                state: SessionState::EnsuringServer {
                    draft: SessionDraft { target_session_id, message, images },
                },
                events: one_event(
                    DesktopSessionEvent::Status("starting shared server".to_string()),
                ),
                action: SessionAction::EnsureServerRunning,
            },
        ),
        Platform::Other => Err(ServerFeature::Sessions),
    }
}

impl<P> SessionState<P> {
    /// Whether `reply` answers what the state waits for, with ids to spare.
    pub fn accepts(&self, reply: &SessionReply<P>) -> (answer: bool)
        ensures
            answer == session_accepts(*self, *reply),
    {
        match (self, reply) {
            (SessionState::EnsuringServer { .. }, SessionReply::Done) => true,
            (SessionState::EnsuringServer { .. }, SessionReply::Failed) => true,
            (SessionState::Connecting { .. }, SessionReply::Done) => true,
            (SessionState::Connecting { .. }, SessionReply::Failed) => true,
            (SessionState::CloningWriter { .. }, SessionReply::Done) => true,
            (SessionState::CloningWriter { .. }, SessionReply::Failed) => true,
            (SessionState::Subscribing { next_request_id, .. }, SessionReply::Done) => {
                *next_request_id < u64::MAX
            },
            (SessionState::Subscribing { .. }, SessionReply::Failed) => true,
            (SessionState::Establishing { .. }, SessionReply::Established { .. }) => true,
            (SessionState::Establishing { .. }, SessionReply::Failed) => true,
            (SessionState::SendingMessage { next_request_id, .. }, SessionReply::Done) => {
                *next_request_id < u64::MAX
            },
            (SessionState::SendingMessage { .. }, SessionReply::Failed) => true,
            (SessionState::LocatingSocket { .. }, SessionReply::Located { .. }) => true,
            (SessionState::Draining { .. }, SessionReply::Drained { .. }) => true,
            (SessionState::Draining { .. }, SessionReply::Failed) => true,
            (SessionState::CheckingReloadSocket { .. }, SessionReply::Located { .. }) => true,
            (SessionState::CheckingReloadSocket { .. }, SessionReply::Failed) => true,
            (SessionState::Reconnecting { .. }, SessionReply::Done) => true,
            (SessionState::Reconnecting { .. }, SessionReply::Failed) => true,
            (SessionState::CloningReconnectedWriter { .. }, SessionReply::Done) => true,
            (SessionState::CloningReconnectedWriter { .. }, SessionReply::Failed) => true,
            (SessionState::Resubscribing { live, .. }, SessionReply::Done) => {
                live.next_request_id < u64::MAX
            },
            (SessionState::Resubscribing { .. }, SessionReply::Failed) => true,
            (SessionState::Reestablishing { .. }, SessionReply::Established { .. }) => true,
            (SessionState::Reestablishing { .. }, SessionReply::Failed) => true,
            _ => false,
        }
    }

    /// The path of the socket that a live session is on.
    pub fn socket_path(&self) -> (path: Option<&P>)
        ensures
            match session_socket(*self) {
                Some(socket_path) => path == Some(&socket_path),
                None => path is None,
            },
    {
        match self {
            SessionState::Draining { socket_path, .. } => Some(socket_path),
            SessionState::CheckingReloadSocket { socket_path, .. } => Some(socket_path),
            SessionState::Reconnecting { socket_path, .. } => Some(socket_path),
            SessionState::CloningReconnectedWriter { socket_path, .. } => Some(socket_path),
            SessionState::Resubscribing { socket_path, .. } => Some(socket_path),
            SessionState::Reestablishing { socket_path, .. } => Some(socket_path),
            _ => None,
        }
    }

    /// The context that the error of the awaited action gets.
    fn failure_context(&self) -> (context: Option<FailureContext>)
        ensures
            context == failure_context(*self),
    {
        match self {
            SessionState::CloningWriter { .. } => Some(FailureContext::CloneWriter),
            SessionState::CloningReconnectedWriter { .. } => Some(
                FailureContext::CloneReconnectedWriter,
            ),
            _ => None,
        }
    }

    /// Takes the step that `reply` leads to.
    pub fn step(self, reply: SessionReply<P>) -> (step: SessionStep<P>)
        requires
            session_accepts(self, reply),
        ensures
            step@ == session_next(self, reply),
    {
        if let SessionReply::Failed = reply {
            return fail(SessionFailure::Action { context: self.failure_context() });
        }
        match self {
            SessionState::EnsuringServer { draft } => SessionStep {
                state: SessionState::Connecting { draft },
                events: one_event(
                    DesktopSessionEvent::Status("connecting to shared server".to_string()),
                ),
                action: SessionAction::Connect { timeout_ms: SERVER_START_TIMEOUT_MS },
            },
            SessionState::Connecting { draft } => SessionStep {
                state: SessionState::CloningWriter { draft },
                events: no_events(),
                action: SessionAction::CloneWriter,
            },
            SessionState::CloningWriter { draft } => {
                let target_session_id = copy_optional_text(&draft.target_session_id);
                SessionStep {
                    state: SessionState::Subscribing { draft, next_request_id: 1 },
                    events: no_events(),
                    action: SessionAction::Subscribe { request_id: 1, target_session_id },
                }
            },
            SessionState::Subscribing { draft, next_request_id } => SessionStep {
                state: SessionState::Establishing { draft },
                events: no_events(),
                action: SessionAction::Establish {
                    subscribe_request_id: next_request_id,
                    next_request_id: next_request_id + 1,
                },
            },
            SessionState::Establishing { draft } => match reply {
                SessionReply::Established { session_id, next_request_id } => {
                    let mut events: Vec<DesktopSessionEvent> = Vec::new();
                    events.push(
                        DesktopSessionEvent::SessionStarted { session_id: session_id.clone() },
                    );
                    events.push(DesktopSessionEvent::Status("sending message".to_string()));
                    assert(event_views(events@) =~= session_next(self, reply).events);
                    SessionStep {
                        state: SessionState::SendingMessage { session_id, next_request_id },
                        events,
                        action: SessionAction::Send {
                            request: ServerRequest::Message {
                                id: next_request_id,
                                content: draft.message,
                                images: draft.images,
                            },
                        },
                    }
                },
                _ => vstd::pervasive::unreached(),
            },
            SessionState::SendingMessage { session_id, next_request_id } => SessionStep {
                state: SessionState::LocatingSocket {
                    live: LiveSession {
                        session_id,
                        message_request_id: next_request_id,
                        next_request_id: next_request_id + 1,
                    },
                },
                events: no_events(),
                action: SessionAction::LocateSocket,
            },
            SessionState::LocatingSocket { live } => match reply {
                SessionReply::Located { socket_path } => drain(live, socket_path, no_events()),
                _ => vstd::pervasive::unreached(),
            },
            SessionState::Draining { live, socket_path } => match reply {
                SessionReply::Drained { outcome, next_request_id } => {
                    let drained = LiveSession { next_request_id, ..live };
                    match outcome {
                        DrainOutcome::Terminal => {
                            let session_id = drained.session_id.clone();
                            SessionStep {
                                state: SessionState::Finished { session_id: drained.session_id },
                                events: no_events(),
                                action: SessionAction::Finish { session_id },
                            }
                        },
                        DrainOutcome::Disconnected => reconnect(
                            drained,
                            socket_path,
                            "server disconnected, reconnecting",
                        ),
                        DrainOutcome::Reloading { new_socket: None } => reconnect(
                            drained,
                            socket_path,
                            "server reloading, reconnecting",
                        ),
                        DrainOutcome::Reloading { new_socket: Some(new_socket) } => SessionStep {
                            state: SessionState::CheckingReloadSocket {
                                live: drained,
                                socket_path,
                            },
                            events: no_events(),
                            action: SessionAction::CheckReloadSocket { new_socket },
                        },
                    }
                },
                _ => vstd::pervasive::unreached(),
            },
            SessionState::CheckingReloadSocket { live, .. } => match reply {
                SessionReply::Located { socket_path } => reconnect(
                    live,
                    socket_path,
                    "server reloading, reconnecting",
                ),
                _ => vstd::pervasive::unreached(),
            },
            SessionState::Reconnecting { live, socket_path } => SessionStep {
                state: SessionState::CloningReconnectedWriter { live, socket_path },
                events: no_events(),
                action: SessionAction::CloneWriter,
            },
            SessionState::CloningReconnectedWriter { live, socket_path } => {
                let request_id: u64 = live.next_request_id;
                let target_session_id = Some(live.session_id.clone());
                SessionStep {
                    state: SessionState::Resubscribing { live, socket_path },
                    events: no_events(),
                    action: SessionAction::Subscribe { request_id, target_session_id },
                }
            },
            SessionState::Resubscribing { live, socket_path } => {
                let subscribe_request_id: u64 = live.next_request_id;
                let next_request_id: u64 = subscribe_request_id + 1;
                SessionStep {
                    state: SessionState::Reestablishing {
                        live: LiveSession { next_request_id, ..live },
                        socket_path,
                    },
                    events: no_events(),
                    action: SessionAction::Establish { subscribe_request_id, next_request_id },
                }
            },
            SessionState::Reestablishing { live, socket_path } => match reply {
                SessionReply::Established { session_id, next_request_id } => {
                    if session_id == live.session_id {
                        drain(
                            LiveSession { next_request_id, ..live },
                            socket_path,
                            one_event(DesktopSessionEvent::Reloaded { session_id }),
                        )
                    } else {
                        fail(
                            SessionFailure::UnexpectedSession {
                                expected: live.session_id,
                                got: session_id,
                            },
                        )
                    }
                },
                _ => vstd::pervasive::unreached(),
            },
            SessionState::Finished { .. } => vstd::pervasive::unreached(),
            SessionState::Failed => vstd::pervasive::unreached(),
        }
    }
}

} // verus!
