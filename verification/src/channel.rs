//! The channels between the desktop and its session workers.
//!
//! A channel is known here by the messages that it takes over its whole life, in
//! the order in which it hands them out at its receiving end, and by those that it
//! gives back to their senders because that end is gone.
//!
//! Where a function's header has an `opens_invariants` clause, the clause lists all that
//! a call may send, and on which channel: what is not listed, neither the function nor
//! anything that it calls can send.

use std::sync::mpsc::{Receiver, Sender};

use vstd::prelude::*;
use vstd::string::*;

use crate::event::{desktop_session_event_kind, DesktopSessionEvent, EventView};
use crate::handle::DesktopSessionCommand;

verus! {

/// Declares [`std::sync::mpsc::Sender`]; nothing is known of what is inside.
#[verifier::external_type_specification]
#[verifier::external_body]
#[verifier::reject_recursive_types(T)]
pub struct ExSender<T>(std::sync::mpsc::Sender<T>);

/// Declares [`std::sync::mpsc::Receiver`]; nothing is known of what is inside.
#[verifier::external_type_specification]
#[verifier::external_body]
#[verifier::reject_recursive_types(T)]
pub struct ExReceiver<T>(std::sync::mpsc::Receiver<T>);

/// The sending end of the channel on which a worker reports.
pub type DesktopSessionEventSender = Sender<DesktopSessionEvent>;

/// Every event that the channel behind `events` takes over its whole life, in the
/// order in which they are read.
pub uninterp spec fn events_taken(events: Sender<DesktopSessionEvent>) -> Seq<EventView>;

/// Every event that the channel behind `events` gives back over its whole life.
pub uninterp spec fn events_refused(events: Sender<DesktopSessionEvent>) -> Set<EventView>;

/// Every command that the channel behind `commands` takes over its whole life, in
/// the order in which they are read.
pub uninterp spec fn commands_taken(commands: Sender<DesktopSessionCommand>) -> Seq<
    DesktopSessionCommand,
>;

/// Every command that the channel behind `commands` gives back over its whole life.
pub uninterp spec fn commands_refused(commands: Sender<DesktopSessionCommand>) -> Set<
    DesktopSessionCommand,
>;

/// Every command that the channel read through `commands` takes over its whole
/// life, in the order in which they are read.
pub uninterp spec fn commands_offered(commands: Receiver<DesktopSessionCommand>) -> Seq<
    DesktopSessionCommand,
>;

/// The sending of `command` on `commands`, as the headers of functions list it.
pub open spec fn sending_command(
    commands: Sender<DesktopSessionCommand>,
    command: DesktopSessionCommand,
) -> int {
    let listed: spec_fn(Sender<DesktopSessionCommand>, DesktopSessionCommand) -> int = arbitrary();
    listed(commands, command)
}

/// The sending of `event` on `events`, as the headers of functions list it.
pub open spec fn sending_event(events: Sender<DesktopSessionEvent>, event: EventView) -> int {
    let listed: spec_fn(Sender<DesktopSessionEvent>, EventView) -> int = arbitrary();
    listed(events, event)
}

/// Calls [`std::sync::mpsc::channel`]. Claims that the two ends are those of one
/// channel: the second end offers what the first end takes, each message once and
/// in the order in which they were taken. That the channel is none of those made
/// before is not stated: a contract sees one call at a time.
#[verifier::external_body]
pub(crate) fn command_channel() -> (ends: (
    Sender<DesktopSessionCommand>,
    Receiver<DesktopSessionCommand>,
))
    ensures
        commands_offered(ends.1) == commands_taken(ends.0),
    opens_invariants none
{
    std::sync::mpsc::channel()
}

/// Clones a [`Sender`]. Claims that the copy sends on the same channel.
#[verifier::external_body]
pub(crate) fn clone_command_sender(commands: &Sender<DesktopSessionCommand>) -> (copy: Sender<
    DesktopSessionCommand,
>)
    ensures
        commands_taken(copy) == commands_taken(*commands),
        commands_refused(copy) == commands_refused(*commands),
{
    commands.clone()
}

/// Calls [`Sender::send`] with a command. Claims that a successful send puts the
/// command on the channel, and that in a failed one the channel gave it back. Which
/// of the two happens is left open: it rests on whether the receiving end still
/// lives. So is the command's place among those of other calls, since other threads
/// may send between them. The call sends this command on this channel, and no other.
#[verifier::external_body]
pub(crate) fn send_command(
    commands: &Sender<DesktopSessionCommand>,
    command: DesktopSessionCommand,
) -> (sent: Result<(), DesktopSessionCommand>)
    ensures
        match sent {
            Ok(_) => commands_taken(*commands).contains(command),
            Err(unsent) => unsent == command && commands_refused(*commands).contains(command),
        },
    opens_invariants [ sending_command(*commands, command) ]
{
    commands.send(command).map_err(|unsent| unsent.0)
}

/// What the standard library says of a send that gave `command` back.
pub uninterp spec fn send_error_text(command: DesktopSessionCommand) -> Seq<char>;

/// Writes out a [`std::sync::mpsc::SendError`] for `command` with `to_string`. Claims
/// that the text rests on nothing but the command; how it is worded is left open.
#[verifier::external_body]
pub(crate) fn send_error_message(command: &DesktopSessionCommand) -> (text: String)
    ensures
        text@ == send_error_text(*command),
{
    std::sync::mpsc::SendError(command).to_string()
}

/// Calls [`Sender::send`] with an event, and claims of it what [`send_command`]
/// claims with a command.
#[verifier::external_body]
pub(crate) fn send_event(
    events: &Sender<DesktopSessionEvent>,
    event: DesktopSessionEvent,
) -> (sent: Result<(), DesktopSessionEvent>)
    ensures
        match sent {
            Ok(_) => events_taken(*events).contains(event@),
            Err(unsent) => unsent == event && events_refused(*events).contains(event@),
        },
    opens_invariants [ sending_event(*events, event@) ]
{
    events.send(event).map_err(|unsent| unsent.0)
}

/// `undelivered` says truly what became of `event`: either the channel took it, or
/// gave it back because the receiver is gone, and this is its kind. Without a channel
/// there is nothing to deliver.
pub open spec fn delivery(
    event_tx: Option<&DesktopSessionEventSender>,
    event: EventView,
    undelivered: Option<&str>,
) -> bool {
    match event_tx {
        None => undelivered is None,
        Some(events) => match undelivered {
            None => events_taken(*events).contains(event),
            Some(kind) => kind@ == event.kind() && events_refused(*events).contains(event),
        },
    }
}

/// Reports `event` on the channel, if there is one. Returns the event's kind when
/// its receiver is gone, for a warning.
pub fn send_desktop_event_ref(
    event_tx: Option<&DesktopSessionEventSender>,
    event: DesktopSessionEvent,
) -> (undelivered: Option<&'static str>)
    ensures
        delivery(event_tx, event@, undelivered),
    opens_invariants [ sending_event(*(event_tx->0), event@) ]
{
    match event_tx {
        None => None,
        Some(events) => {
            let kind = desktop_session_event_kind(&event);
            match send_event(events, event) {
                Ok(_) => None,
                Err(_) => Some(kind),
            }
        },
    }
}

/// [`send_desktop_event_ref`] for a channel end that the caller owns.
pub fn send_desktop_event(
    event_tx: &Option<DesktopSessionEventSender>,
    event: DesktopSessionEvent,
) -> (undelivered: Option<&'static str>)
    ensures
        delivery(
            match *event_tx {
                Some(events) => Some(&events),
                None => None,
            },
            event@,
            undelivered,
        ),
    opens_invariants [ sending_event((*event_tx)->0, event@) ]
{
    match event_tx {
        Some(events) => send_desktop_event_ref(Some(events), event),
        None => None,
    }
}

/// Reports a status line.
pub fn send_desktop_status(event_tx: &Option<DesktopSessionEventSender>, status: &str) -> (
    undelivered: Option<&'static str>)
    ensures
        delivery(
            match *event_tx {
                Some(events) => Some(&events),
                None => None,
            },
            EventView::Status(status@),
            undelivered,
        ),
{
    send_desktop_event(event_tx, DesktopSessionEvent::Status(status.to_string()))
}

/// What is reported is delivered, or its kind comes back because the channel refused it.
/// Without a channel nothing comes back.
pub proof fn reports_are_delivered_or_named(
    event_tx: Option<&DesktopSessionEventSender>,
    event: DesktopSessionEvent,
    kind: &'static str,
    undelivered: Option<&'static str>,
)
    requires
        call_ensures(desktop_session_event_kind, (&event,), kind),
        call_ensures(send_desktop_event_ref, (event_tx, event), undelivered) || (event_tx is Some
            && call_ensures(send_desktop_event, (&Some(*(event_tx->0)), event), undelivered)) || (
        event_tx is None && call_ensures(send_desktop_event, (&None, event), undelivered)),
    ensures
        event_tx is None ==> undelivered is None,
        event_tx matches Some(events) ==> match undelivered {
            None => events_taken(*events).contains(event@),
            Some(named) => events_refused(*events).contains(event@) && named@ == kind@,
        },
{
}

/// A status line is reported as any other event is, word for word.
pub proof fn status_lines_are_reported_word_for_word(
    event_tx: Option<DesktopSessionEventSender>,
    status: &str,
    undelivered: Option<&'static str>,
)
    requires
        call_ensures(send_desktop_status, (&event_tx, status), undelivered),
    ensures
        event_tx is None ==> undelivered is None,
        event_tx matches Some(events) ==> match undelivered {
            None => events_taken(events).contains(EventView::Status(status@)),
            Some(named) => events_refused(events).contains(EventView::Status(status@)) && named@
                == "status"@,
        },
{
}

/// A warning is the same sentence for every kind of event, around the kind's own name.
pub proof fn warning_names_the_kind(kind: &str, line: String)
    requires
        call_ensures(undelivered_warning, (kind,), line),
    ensures
        line@ == "jcode-desktop: failed to deliver backend event "@ + kind@
            + ", receiver is closed"@,
{
}

/// The line that warns of an event of this kind whose receiver is gone.
pub fn undelivered_warning(kind: &str) -> (line: String)
    ensures
        line@ == "jcode-desktop: failed to deliver backend event "@ + kind@
            + ", receiver is closed"@,
{
    "jcode-desktop: failed to deliver backend event ".to_string().concat(kind).concat(
        ", receiver is closed",
    )
}

} // verus!
