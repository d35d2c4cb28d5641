//! The desktop's hold on a running session worker.

use std::sync::mpsc::{Receiver, Sender};

use vstd::prelude::*;

use crate::channel::{
    clone_command_sender, command_channel, commands_offered, commands_refused, commands_taken,
    send_command, send_error_message, send_error_text, sending_command,
};

verus! {

/// What the desktop asks of a running session worker.
#[derive(Clone, Debug, Eq, PartialEq)]
pub enum DesktopSessionCommand {
    Cancel,
    StdinResponse { request_id: String, input: String },
}

/// Steers one session worker.
#[derive(Debug)]
pub struct DesktopSessionHandle {
    command_tx: Sender<DesktopSessionCommand>,
}

/// A command that found its worker gone.
#[derive(Clone, Debug, Eq, PartialEq)]
pub struct CommandError {
    pub command: DesktopSessionCommand,
}

/// The sentence that reports `command` as unsent.
pub open spec fn unsent_command_text(command: DesktopSessionCommand) -> Seq<char> {
    match command {
        DesktopSessionCommand::Cancel => "failed to send cancel to desktop session worker"@,
        DesktopSessionCommand::StdinResponse { .. } => {
            "failed to send stdin response to desktop session worker"@
        },
    }
}

impl CommandError {
    /// The sentences that report the failure, and then its cause.
    pub fn messages(&self) -> (messages: Vec<String>)
        ensures
            messages@.map_values(|message: String| message@) == seq![
                unsent_command_text(self.command),
                send_error_text(self.command),
            ],
    {
        let mut messages: Vec<String> = Vec::new();
        messages.push(self.message().to_string());
        messages.push(send_error_message(&self.command));
        assert(messages@.map_values(|message: String| message@) =~= seq![
            unsent_command_text(self.command),
            send_error_text(self.command),
        ]);
        messages
    }

    /// The sentence that reports the failure.
    pub fn message(&self) -> (text: &'static str)
        ensures
            text@ == unsent_command_text(self.command),
    {
        match self.command {
            DesktopSessionCommand::Cancel => "failed to send cancel to desktop session worker",
            DesktopSessionCommand::StdinResponse { .. } => {
                "failed to send stdin response to desktop session worker"
            },
        }
    }
}

impl DesktopSessionHandle {
    /// Every command that goes out to the worker through this handle or a copy of it,
    /// in the order in which the worker reads them.
    pub closed spec fn commands(&self) -> Seq<DesktopSessionCommand> {
        commands_taken(self.command_tx)
    }

    /// Every command that comes back to this handle or a copy of it, because the
    /// worker is gone.
    pub closed spec fn refused(&self) -> Set<DesktopSessionCommand> {
        commands_refused(self.command_tx)
    }

    /// The sending of `command` through this handle, as the headers of functions list it.
    pub closed spec fn sending(&self, command: DesktopSessionCommand) -> int {
        sending_command(self.command_tx, command)
    }

    /// A new handle, and the end at which its worker reads the commands.
    pub fn new() -> (ends: (DesktopSessionHandle, Receiver<DesktopSessionCommand>))
        ensures
            commands_offered(ends.1) == ends.0.commands(),
        opens_invariants none
    {
        let (command_tx, command_rx) = command_channel();
        (DesktopSessionHandle { command_tx }, command_rx)
    }

    /// Asks the worker to stop the turn that runs. Nothing else is sent.
    pub fn cancel(&self) -> (sent: Result<(), CommandError>)
        ensures
            match sent {
                Ok(_) => self.commands().contains(DesktopSessionCommand::Cancel),
                Err(error) => error.command == DesktopSessionCommand::Cancel
                    && self.refused().contains(error.command),
            },
        opens_invariants [ self.sending(DesktopSessionCommand::Cancel) ]
    {
        match send_command(&self.command_tx, DesktopSessionCommand::Cancel) {
            Ok(_) => Ok(()),
            Err(command) => Err(CommandError { command }),
        }
    }

    /// Answers the prompt `request_id` with `input`. Nothing else is sent.
    pub fn send_stdin_response(&self, request_id: String, input: String) -> (sent: Result<
        (),
        CommandError,
    >)
        ensures
            match sent {
                Ok(_) => self.commands().contains(
                    (DesktopSessionCommand::StdinResponse { request_id, input }),
                ),
                Err(error) => error.command == (DesktopSessionCommand::StdinResponse {
                    request_id,
                    input,
                }) && self.refused().contains(error.command),
            },
        opens_invariants [
            self.sending((DesktopSessionCommand::StdinResponse { request_id, input }))
        ]
    {
        match send_command(
            &self.command_tx,
            DesktopSessionCommand::StdinResponse { request_id, input },
        ) {
            Ok(_) => Ok(()),
            Err(command) => Err(CommandError { command }),
        }
    }
}

/// A command that a call reports as sent goes out through the handle; one that it reports
/// as unsent comes back whole. A copy of the handle shares both fates.
pub proof fn commands_go_out_or_come_back(
    handle: DesktopSessionHandle,
    copy: DesktopSessionHandle,
    request_id: String,
    input: String,
    sent: Result<(), CommandError>,
)
    requires
        copy == handle || call_ensures(DesktopSessionHandle::clone, (&handle,), copy),
    ensures
        call_ensures(DesktopSessionHandle::cancel, (&copy,), sent) ==> match sent {
            Ok(_) => handle.commands().contains(DesktopSessionCommand::Cancel),
            Err(error) => error.command is Cancel && handle.refused().contains(
                DesktopSessionCommand::Cancel,
            ),
        },
        call_ensures(DesktopSessionHandle::send_stdin_response, (&copy, request_id, input), sent)
            ==> match sent {
            Ok(_) => handle.commands().contains(
                (DesktopSessionCommand::StdinResponse { request_id, input }),
            ),
            Err(error) => {
                &&& error.command matches DesktopSessionCommand::StdinResponse {
                    request_id: id,
                    input: text,
                }
                &&& id == request_id
                &&& text == input
                &&& handle.refused().contains(error.command)
            },
        },
{
}

/// What comes back is told in two sentences: which command it was, whatever it carried,
/// and then the cause.
pub proof fn unsent_command_is_named(error: CommandError, messages: Vec<String>)
    requires
        call_ensures(CommandError::messages, (&error,), messages),
    ensures
        messages@.len() == 2,
        error.command is Cancel ==> messages@[0]@
            == "failed to send cancel to desktop session worker"@,
        error.command is StdinResponse ==> messages@[0]@
            == "failed to send stdin response to desktop session worker"@,
        messages@[1]@ == send_error_text(error.command),
{
    let views = messages@.map_values(|message: String| message@);
    assert(views.len() == messages@.len());
    assert(views[0] == messages@[0]@);
    assert(views[1] == messages@[1]@);
}

impl Clone for DesktopSessionHandle {
    /// A handle on the same worker.
    fn clone(&self) -> (copy: DesktopSessionHandle)
        ensures
            copy.commands() == self.commands(),
            copy.refused() == self.refused(),
    {
        DesktopSessionHandle { command_tx: clone_command_sender(&self.command_tx) }
    }
}

} // verus!
