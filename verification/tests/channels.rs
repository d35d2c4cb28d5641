use std::sync::mpsc;

use session_launch::channel::{
    send_desktop_event, send_desktop_event_ref, send_desktop_status, undelivered_warning,
};
use session_launch::event::{desktop_session_event_kind, DesktopModelChoice, DesktopSessionEvent};
use session_launch::handle::{DesktopSessionCommand, DesktopSessionHandle};

fn text(text: &str) -> String {
    text.to_string()
}

#[test]
fn cancel_reaches_the_worker() {
    let (handle, commands) = DesktopSessionHandle::new();
    assert_eq!(handle.cancel(), Ok(()));
    assert_eq!(commands.try_recv(), Ok(DesktopSessionCommand::Cancel));
}

#[test]
fn stdin_response_reaches_the_worker() {
    let (handle, commands) = DesktopSessionHandle::new();
    assert_eq!(handle.send_stdin_response(text("r1"), text("yes")), Ok(()));
    assert_eq!(
        commands.try_recv(),
        Ok(DesktopSessionCommand::StdinResponse { request_id: text("r1"), input: text("yes") })
    );
}

#[test]
fn a_cloned_handle_steers_the_same_worker() {
    let (handle, commands) = DesktopSessionHandle::new();
    let copy = handle.clone();
    drop(handle);
    assert_eq!(copy.cancel(), Ok(()));
    assert_eq!(commands.try_recv(), Ok(DesktopSessionCommand::Cancel));
    drop(copy);
    assert_eq!(commands.try_recv(), Err(mpsc::TryRecvError::Disconnected));
}

#[test]
fn commands_to_a_gone_worker_come_back() {
    let (handle, commands) = DesktopSessionHandle::new();
    drop(commands);
    let error = handle.cancel().unwrap_err();
    assert_eq!(error.command, DesktopSessionCommand::Cancel);
    assert_eq!(error.message(), "failed to send cancel to desktop session worker");
    assert_eq!(
        error.messages(),
        ["failed to send cancel to desktop session worker", "sending on a closed channel"]
    );
    let error = handle.send_stdin_response(text("r2"), text("no")).unwrap_err();
    assert_eq!(
        error.command,
        DesktopSessionCommand::StdinResponse { request_id: text("r2"), input: text("no") }
    );
    assert_eq!(
        error.messages(),
        ["failed to send stdin response to desktop session worker", "sending on a closed channel"]
    );
}

#[test]
fn events_arrive_in_order() {
    let (event_tx, events) = mpsc::channel();
    assert_eq!(send_desktop_event_ref(Some(&event_tx), DesktopSessionEvent::Done), None);
    let owned = Some(event_tx);
    assert_eq!(send_desktop_event(&owned, DesktopSessionEvent::Error(text("e"))), None);
    assert_eq!(send_desktop_status(&owned, "working"), None);
    assert_eq!(events.try_recv(), Ok(DesktopSessionEvent::Done));
    assert_eq!(events.try_recv(), Ok(DesktopSessionEvent::Error(text("e"))));
    assert_eq!(events.try_recv(), Ok(DesktopSessionEvent::Status(text("working"))));
}

#[test]
fn events_nobody_reads_are_named() {
    let (event_tx, events) = mpsc::channel();
    drop(events);
    let owned = Some(event_tx);
    assert_eq!(
        send_desktop_event_ref(owned.as_ref(), DesktopSessionEvent::TextDelta(text("x"))),
        Some("text_delta")
    );
    assert_eq!(send_desktop_event(&owned, DesktopSessionEvent::Done), Some("done"));
    assert_eq!(send_desktop_status(&owned, "working"), Some("status"));
}

#[test]
fn without_a_channel_nothing_is_sent() {
    assert_eq!(send_desktop_event_ref(None, DesktopSessionEvent::Done), None);
    assert_eq!(send_desktop_event(&None, DesktopSessionEvent::Done), None);
    assert_eq!(send_desktop_status(&None, "working"), None);
}

#[test]
fn every_event_has_its_kind() {
    let choice = DesktopModelChoice {
        model: text("m"),
        provider: Some(text("p")),
        api_method: None,
        detail: None,
        available: true,
    };
    let kinds = [
        (DesktopSessionEvent::Status(text("")), "status"),
        (DesktopSessionEvent::SessionStarted { session_id: text("") }, "session_started"),
        (DesktopSessionEvent::TextDelta(text("")), "text_delta"),
        (DesktopSessionEvent::TextReplace(text("")), "text_replace"),
        (DesktopSessionEvent::ToolStarted { name: text("") }, "tool_started"),
        (DesktopSessionEvent::ToolExecuting { name: text("") }, "tool_executing"),
        (DesktopSessionEvent::ToolInput { delta: text("") }, "tool_input"),
        (
            DesktopSessionEvent::ToolFinished {
                name: text(""),
                summary: text(""),
                is_error: false,
            },
            "tool_finished",
        ),
        (
            DesktopSessionEvent::ModelChanged {
                model: text(""),
                provider_name: None,
                error: None,
            },
            "model_changed",
        ),
        (
            DesktopSessionEvent::ModelCatalog {
                current_model: None,
                provider_name: None,
                models: vec![choice],
            },
            "model_catalog",
        ),
        (DesktopSessionEvent::ModelCatalogError { error: text("") }, "model_catalog_error"),
        (
            DesktopSessionEvent::StdinRequest {
                request_id: text(""),
                prompt: text(""),
                is_password: true,
                tool_call_id: text(""),
            },
            "stdin_request",
        ),
        (DesktopSessionEvent::Reloading { new_socket: None }, "reloading"),
        (DesktopSessionEvent::Reloaded { session_id: text("") }, "reloaded"),
        (DesktopSessionEvent::Done, "done"),
        (DesktopSessionEvent::Error(text("")), "error"),
    ];
    for (i, (event, kind)) in kinds.iter().enumerate() {
        assert_eq!(desktop_session_event_kind(event), *kind);
        for (_, other) in &kinds[..i] {
            assert_ne!(kind, other);
        }
    }
}

#[test]
fn commands_arrive_once_each_and_in_order_across_copies() {
    let (handle, commands) = DesktopSessionHandle::new();
    let copy = handle.clone();
    assert_eq!(handle.send_stdin_response(text("r1"), text("a")), Ok(()));
    assert_eq!(copy.cancel(), Ok(()));
    assert_eq!(handle.send_stdin_response(text("r2"), text("b")), Ok(()));
    drop(handle);
    drop(copy);
    let read: Vec<DesktopSessionCommand> = commands.iter().collect();
    assert_eq!(
        read,
        [
            DesktopSessionCommand::StdinResponse { request_id: text("r1"), input: text("a") },
            DesktopSessionCommand::Cancel,
            DesktopSessionCommand::StdinResponse { request_id: text("r2"), input: text("b") },
        ]
    );
}

#[test]
fn a_lost_event_is_warned_of_by_its_kind() {
    assert_eq!(
        undelivered_warning("text_delta"),
        "jcode-desktop: failed to deliver backend event text_delta, receiver is closed"
    );
}
