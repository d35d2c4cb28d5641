//! What a session worker reports to the desktop.

use vstd::prelude::*;

verus! {

/// One model that the server offers.
#[derive(Clone, Debug, Eq, PartialEq)]
pub struct DesktopModelChoice {
    pub model: String,
    pub provider: Option<String>,
    pub api_method: Option<String>,
    pub detail: Option<String>,
    pub available: bool,
}

/// One report of a session worker.
#[derive(Clone, Debug, Eq, PartialEq)]
#[allow(inconsistent_fields)]
pub enum DesktopSessionEvent {
    Status(String),
    SessionStarted { session_id: String },
    TextDelta(String),
    TextReplace(String),
    ToolStarted { name: String },
    ToolExecuting { name: String },
    ToolInput { delta: String },
    ToolFinished { name: String, summary: String, is_error: bool },
    ModelChanged { model: String, provider_name: Option<String>, error: Option<String> },
    ModelCatalog {
        current_model: Option<String>,
        provider_name: Option<String>,
        models: Vec<DesktopModelChoice>,
    },
    ModelCatalogError { error: String },
    StdinRequest { request_id: String, prompt: String, is_password: bool, tool_call_id: String },
    Reloading { new_socket: Option<String> },
    Reloaded { session_id: String },
    Done,
    Error(String),
}

/// A [`DesktopModelChoice`] with its strings as character sequences.
pub ghost struct ModelChoiceView {
    pub model: Seq<char>,
    pub provider: Option<Seq<char>>,
    pub api_method: Option<Seq<char>>,
    pub detail: Option<Seq<char>>,
    pub available: bool,
}

/// A [`DesktopSessionEvent`] with its strings as character sequences.
#[allow(inconsistent_fields)]
pub ghost enum EventView {
    Status(Seq<char>),
    SessionStarted { session_id: Seq<char> },
    TextDelta(Seq<char>),
    TextReplace(Seq<char>),
    ToolStarted { name: Seq<char> },
    ToolExecuting { name: Seq<char> },
    ToolInput { delta: Seq<char> },
    ToolFinished { name: Seq<char>, summary: Seq<char>, is_error: bool },
    ModelChanged {
        model: Seq<char>,
        provider_name: Option<Seq<char>>,
        error: Option<Seq<char>>,
    },
    ModelCatalog {
        current_model: Option<Seq<char>>,
        provider_name: Option<Seq<char>>,
        models: Seq<ModelChoiceView>,
    },
    ModelCatalogError { error: Seq<char> },
    StdinRequest {
        request_id: Seq<char>,
        prompt: Seq<char>,
        is_password: bool,
        tool_call_id: Seq<char>,
    },
    Reloading { new_socket: Option<Seq<char>> },
    Reloaded { session_id: Seq<char> },
    Done,
    Error(Seq<char>),
}

/// The characters of a string that may be missing.
pub open spec fn optional_text(text: Option<String>) -> Option<Seq<char>> {
    match text {
        Some(text) => Some(text@),
        None => None,
    }
}

impl View for DesktopModelChoice {
    type V = ModelChoiceView;

    open spec fn view(&self) -> ModelChoiceView {
        ModelChoiceView {
            model: self.model@,
            provider: optional_text(self.provider),
            api_method: optional_text(self.api_method),
            detail: optional_text(self.detail),
            available: self.available,
        }
    }
}

impl View for DesktopSessionEvent {
    type V = EventView;

    open spec fn view(&self) -> EventView {
        match *self {
            DesktopSessionEvent::Status(status) => EventView::Status(status@),
            DesktopSessionEvent::SessionStarted { session_id } => EventView::SessionStarted {
                session_id: session_id@,
            },
            DesktopSessionEvent::TextDelta(text) => EventView::TextDelta(text@),
            DesktopSessionEvent::TextReplace(text) => EventView::TextReplace(text@),
            DesktopSessionEvent::ToolStarted { name } => EventView::ToolStarted { name: name@ },
            DesktopSessionEvent::ToolExecuting { name } => EventView::ToolExecuting { name: name@ },
            DesktopSessionEvent::ToolInput { delta } => EventView::ToolInput { delta: delta@ },
            DesktopSessionEvent::ToolFinished { name, summary, is_error } => {
                EventView::ToolFinished { name: name@, summary: summary@, is_error }
            },
            DesktopSessionEvent::ModelChanged { model, provider_name, error } => {
                EventView::ModelChanged {
                    model: model@,
                    provider_name: optional_text(provider_name),
                    error: optional_text(error),
                }
            },
            DesktopSessionEvent::ModelCatalog { current_model, provider_name, models } => {
                EventView::ModelCatalog {
                    current_model: optional_text(current_model),
                    provider_name: optional_text(provider_name),
                    models: models@.map_values(|choice: DesktopModelChoice| choice@),
                }
            },
            DesktopSessionEvent::ModelCatalogError { error } => EventView::ModelCatalogError {
                error: error@,
            },
            DesktopSessionEvent::StdinRequest { request_id, prompt, is_password, tool_call_id } => {
                EventView::StdinRequest {
                    request_id: request_id@,
                    prompt: prompt@,
                    is_password,
                    tool_call_id: tool_call_id@,
                }
            },
            DesktopSessionEvent::Reloading { new_socket } => EventView::Reloading {
                new_socket: optional_text(new_socket),
            },
            DesktopSessionEvent::Reloaded { session_id } => EventView::Reloaded {
                session_id: session_id@,
            },
            DesktopSessionEvent::Done => EventView::Done,
            DesktopSessionEvent::Error(error) => EventView::Error(error@),
        }
    }
}

/// The views of a sequence of events, in order.
pub open spec fn event_views(events: Seq<DesktopSessionEvent>) -> Seq<EventView> {
    events.map_values(|event: DesktopSessionEvent| event@)
}

impl EventView {
    /// The name of the event's kind.
    pub open spec fn kind(self) -> Seq<char> {
        match self {
            EventView::Status(_) => "status"@,
            EventView::SessionStarted { .. } => "session_started"@,
            EventView::TextDelta(_) => "text_delta"@,
            EventView::TextReplace(_) => "text_replace"@,
            EventView::ToolStarted { .. } => "tool_started"@,
            EventView::ToolExecuting { .. } => "tool_executing"@,
            EventView::ToolInput { .. } => "tool_input"@,
            EventView::ToolFinished { .. } => "tool_finished"@,
            EventView::ModelChanged { .. } => "model_changed"@,
            EventView::ModelCatalog { .. } => "model_catalog"@,
            EventView::ModelCatalogError { .. } => "model_catalog_error"@,
            EventView::StdinRequest { .. } => "stdin_request"@,
            EventView::Reloading { .. } => "reloading"@,
            EventView::Reloaded { .. } => "reloaded"@,
            EventView::Done => "done"@,
            EventView::Error(_) => "error"@,
        }
    }
}

/// The name of the event's kind.
pub fn desktop_session_event_kind(event: &DesktopSessionEvent) -> (kind: &'static str)
    ensures
        kind@ == event@.kind(),
    opens_invariants none
{
    match event {
        DesktopSessionEvent::Status(_) => "status",
        DesktopSessionEvent::SessionStarted { .. } => "session_started",
        DesktopSessionEvent::TextDelta(_) => "text_delta",
        DesktopSessionEvent::TextReplace(_) => "text_replace",
        DesktopSessionEvent::ToolStarted { .. } => "tool_started",
        DesktopSessionEvent::ToolExecuting { .. } => "tool_executing",
        DesktopSessionEvent::ToolInput { .. } => "tool_input",
        DesktopSessionEvent::ToolFinished { .. } => "tool_finished",
        DesktopSessionEvent::ModelChanged { .. } => "model_changed",
        DesktopSessionEvent::ModelCatalog { .. } => "model_catalog",
        DesktopSessionEvent::ModelCatalogError { .. } => "model_catalog_error",
        DesktopSessionEvent::StdinRequest { .. } => "stdin_request",
        DesktopSessionEvent::Reloading { .. } => "reloading",
        DesktopSessionEvent::Reloaded { .. } => "reloaded",
        DesktopSessionEvent::Done => "done",
        DesktopSessionEvent::Error(_) => "error",
    }
}

/// What an event is called rests on its kind alone: whatever it carries, it is called the
/// same.
pub proof fn kind_rests_on_nothing_else(event: DesktopSessionEvent, kind: &'static str)
    requires
        call_ensures(desktop_session_event_kind, (&event,), kind),
    ensures
        event is Status ==> kind@ == "status"@,
        event is SessionStarted ==> kind@ == "session_started"@,
        event is TextDelta ==> kind@ == "text_delta"@,
        event is TextReplace ==> kind@ == "text_replace"@,
        event is ToolStarted ==> kind@ == "tool_started"@,
        event is ToolExecuting ==> kind@ == "tool_executing"@,
        event is ToolInput ==> kind@ == "tool_input"@,
        event is ToolFinished ==> kind@ == "tool_finished"@,
        event is ModelChanged ==> kind@ == "model_changed"@,
        event is ModelCatalog ==> kind@ == "model_catalog"@,
        event is ModelCatalogError ==> kind@ == "model_catalog_error"@,
        event is StdinRequest ==> kind@ == "stdin_request"@,
        event is Reloading ==> kind@ == "reloading"@,
        event is Reloaded ==> kind@ == "reloaded"@,
        event is Done ==> kind@ == "done"@,
        event is Error ==> kind@ == "error"@,
{
}

/// The characters of an event are all that there is to it: events with the same view are
/// of one kind and carry the same.
pub proof fn view_tells_events_apart(a: DesktopSessionEvent, b: DesktopSessionEvent)
    requires
        a@ == b@,
    ensures
        match (a, b) {
            (DesktopSessionEvent::Status(x), DesktopSessionEvent::Status(y)) => x@ == y@,
            (
                DesktopSessionEvent::SessionStarted { session_id: x },
                DesktopSessionEvent::SessionStarted { session_id: y },
            ) => x@ == y@,
            (DesktopSessionEvent::TextDelta(x), DesktopSessionEvent::TextDelta(y)) => x@ == y@,
            (DesktopSessionEvent::TextReplace(x), DesktopSessionEvent::TextReplace(y)) => x@ == y@,
            (
                DesktopSessionEvent::ToolStarted { name: x },
                DesktopSessionEvent::ToolStarted { name: y },
            ) => x@ == y@,
            (
                DesktopSessionEvent::ToolExecuting { name: x },
                DesktopSessionEvent::ToolExecuting { name: y },
            ) => x@ == y@,
            (
                DesktopSessionEvent::ToolInput { delta: x },
                DesktopSessionEvent::ToolInput { delta: y },
            ) => x@ == y@,
            (
                DesktopSessionEvent::ToolFinished { name: x, summary: p, is_error: e },
                DesktopSessionEvent::ToolFinished { name: y, summary: q, is_error: f },
            ) => x@ == y@ && p@ == q@ && e == f,
            (
                DesktopSessionEvent::ModelChanged { model: x, provider_name: p, error: e },
                DesktopSessionEvent::ModelChanged { model: y, provider_name: q, error: f },
            ) => x@ == y@ && same_text(p, q) && same_text(e, f),
            (
                DesktopSessionEvent::ModelCatalog { current_model: x, provider_name: p, models: m },
                DesktopSessionEvent::ModelCatalog { current_model: y, provider_name: q, models: n },
            ) => same_text(x, y) && same_text(p, q) && m@.len() == n@.len() && forall|i: int|
                0 <= i < m@.len() ==> same_choice(#[trigger] m@[i], n@[i]),
            (
                DesktopSessionEvent::ModelCatalogError { error: x },
                DesktopSessionEvent::ModelCatalogError { error: y },
            ) => x@ == y@,
            (
                DesktopSessionEvent::StdinRequest {
                    request_id: x,
                    prompt: p,
                    is_password: e,
                    tool_call_id: t,
                },
                DesktopSessionEvent::StdinRequest {
                    request_id: y,
                    prompt: q,
                    is_password: f,
                    tool_call_id: u,
                },
            ) => x@ == y@ && p@ == q@ && e == f && t@ == u@,
            (
                DesktopSessionEvent::Reloading { new_socket: x },
                DesktopSessionEvent::Reloading { new_socket: y },
            ) => same_text(x, y),
            (
                DesktopSessionEvent::Reloaded { session_id: x },
                DesktopSessionEvent::Reloaded { session_id: y },
            ) => x@ == y@,
            (DesktopSessionEvent::Done, DesktopSessionEvent::Done) => true,
            (DesktopSessionEvent::Error(x), DesktopSessionEvent::Error(y)) => x@ == y@,
            _ => false,
        },
{
    if let DesktopSessionEvent::ModelCatalog { models: m, .. } = a {
        if let DesktopSessionEvent::ModelCatalog { models: n, .. } = b {
            let left = m@.map_values(|choice: DesktopModelChoice| choice@);
            let right = n@.map_values(|choice: DesktopModelChoice| choice@);
            assert(left == right);
            assert(left.len() == m@.len() && right.len() == n@.len());
            assert forall|i: int| 0 <= i < m@.len() implies same_choice(
                #[trigger] m@[i],
                n@[i],
            ) by {
                assert(left[i] == m@[i]@);
                assert(right[i] == n@[i]@);
            }
        }
    }
}

/// Two strings that may be missing are both there and alike, or both missing.
pub open spec fn same_text(a: Option<String>, b: Option<String>) -> bool {
    match (a, b) {
        (Some(x), Some(y)) => x@ == y@,
        (None, None) => true,
        _ => false,
    }
}

/// Two models on offer are alike in all that is told of them.
pub open spec fn same_choice(a: DesktopModelChoice, b: DesktopModelChoice) -> bool {
    &&& a.model@ == b.model@
    &&& same_text(a.provider, b.provider)
    &&& same_text(a.api_method, b.api_method)
    &&& same_text(a.detail, b.detail)
    &&& a.available == b.available
}

/// The name of a kind tells events apart: events with the same name are of the same
/// kind.
pub proof fn kind_names_differ(a: EventView, b: EventView)
    requires
        a.kind() == b.kind(),
    ensures
        a is Status == b is Status,
        a is SessionStarted == b is SessionStarted,
        a is TextDelta == b is TextDelta,
        a is TextReplace == b is TextReplace,
        a is ToolStarted == b is ToolStarted,
        a is ToolExecuting == b is ToolExecuting,
        a is ToolInput == b is ToolInput,
        a is ToolFinished == b is ToolFinished,
        a is ModelChanged == b is ModelChanged,
        a is ModelCatalog == b is ModelCatalog,
        a is ModelCatalogError == b is ModelCatalogError,
        a is StdinRequest == b is StdinRequest,
        a is Reloading == b is Reloading,
        a is Reloaded == b is Reloaded,
        a is Done == b is Done,
        a is Error == b is Error,
{
    reveal_strlit("status");
    reveal_strlit("session_started");
    reveal_strlit("text_delta");
    reveal_strlit("text_replace");
    reveal_strlit("tool_started");
    reveal_strlit("tool_executing");
    reveal_strlit("tool_input");
    reveal_strlit("tool_finished");
    reveal_strlit("model_changed");
    reveal_strlit("model_catalog");
    reveal_strlit("model_catalog_error");
    reveal_strlit("stdin_request");
    reveal_strlit("reloading");
    reveal_strlit("reloaded");
    reveal_strlit("done");
    reveal_strlit("error");
    assert("status"@.len() == 6);
    assert("session_started"@.len() == 15);
    assert("text_delta"@.len() == 10);
    assert("text_replace"@.len() == 12);
    assert("tool_started"@.len() == 12);
    assert("tool_executing"@.len() == 14);
    assert("tool_input"@.len() == 10);
    assert("tool_finished"@.len() == 13);
    assert("model_changed"@.len() == 13);
    assert("model_catalog"@.len() == 13);
    assert("model_catalog_error"@.len() == 19);
    assert("stdin_request"@.len() == 13);
    assert("reloading"@.len() == 9);
    assert("reloaded"@.len() == 8);
    assert("done"@.len() == 4);
    assert("error"@.len() == 5);
    assert("text_delta"@[1] != "tool_input"@[1]);
    assert("text_replace"@[1] != "tool_started"@[1]);
    assert("tool_finished"@[0] != "model_changed"@[0]);
    assert("tool_finished"@[0] != "model_catalog"@[0]);
    assert("tool_finished"@[0] != "stdin_request"@[0]);
    assert("model_changed"@[7] != "model_catalog"@[7]);
    assert("model_changed"@[0] != "stdin_request"@[0]);
    assert("model_catalog"@[0] != "stdin_request"@[0]);
}

} // verus!
