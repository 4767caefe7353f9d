//! What a caller gets back: the answer to a connection request and the
//! result of a command.

use crate::command::is_directory_change;
use crate::error::ConnectError;
use crate::text::trimmed;
use vstd::prelude::*;

verus! {

/// The answer to a connection request. Failures are reported here, never
/// raised: `success` is false, and `message` says why.
#[derive(Debug, Clone, PartialEq, Eq)]
pub struct SSHConnectionResponse {
    pub success: bool,
    pub message: String,
    pub connection_id: Option<String>,
}

/// An `SSHConnectionResponse` as plain text.
pub struct SSHConnectionResponseView {
    pub success: bool,
    pub message: Seq<char>,
    pub connection_id: Option<Seq<char>>,
}

impl View for SSHConnectionResponse {
    type V = SSHConnectionResponseView;

    open spec fn view(&self) -> SSHConnectionResponseView {
        SSHConnectionResponseView {
            success: self.success,
            message: self.message@,
            connection_id: match self.connection_id {
                Some(id) => Some(id@),
                None => None,
            },
        }
    }
}

/// The answer for a session registered under `connection_id`.
pub open spec fn connected_response(connection_id: Seq<char>) -> SSHConnectionResponseView {
    SSHConnectionResponseView {
        success: true,
        message: "Successfully connected and authenticated"@,
        connection_id: Some(connection_id),
    }
}

/// The answer for an attempt that ended in `error`: its message, and no
/// identifier.
pub open spec fn failed_response(error: ConnectError) -> SSHConnectionResponseView {
    SSHConnectionResponseView {
        success: false,
        message: error.message_text(),
        connection_id: None,
    }
}

impl SSHConnectionResponse {
    /// The answer for a session registered under `connection_id`.
    pub fn connected(connection_id: String) -> (response: SSHConnectionResponse)
        ensures
            response@ == connected_response(connection_id@),
    {
        SSHConnectionResponse {
            success: true,
            message: String::from_str("Successfully connected and authenticated"),
            connection_id: Some(connection_id),
        }
    }

    /// The answer for an attempt that ended in `error`.
    pub fn failed(error: &ConnectError) -> (response: SSHConnectionResponse)
        ensures
            response@ == failed_response(*error),
    {
        SSHConnectionResponse { success: false, message: error.message(), connection_id: None }
    }
}

/// What one command channel delivered before it closed.
#[derive(Debug, Clone, PartialEq, Eq)]
pub struct ChannelOutput {
    pub stdout: String,
    pub stderr: String,
    pub exit_status: i32,
}

/// A `ChannelOutput` as plain text and numbers.
pub struct ChannelOutputView {
    pub stdout: Seq<char>,
    pub stderr: Seq<char>,
    pub exit_status: int,
}

impl View for ChannelOutput {
    type V = ChannelOutputView;

    open spec fn view(&self) -> ChannelOutputView {
        ChannelOutputView {
            stdout: self.stdout@,
            stderr: self.stderr@,
            exit_status: self.exit_status as int,
        }
    }
}

/// What the transport reported for one dispatch, as plain text and
/// numbers: what the channel delivered, or the reason it delivered nothing.
pub open spec fn outcome_view(outcome: Result<ChannelOutput, String>) -> Result<
    ChannelOutputView,
    Seq<char>,
> {
    match outcome {
        Ok(output) => Ok(output@),
        Err(reason) => Err(reason@),
    }
}

/// The result of one command. An `exit_status` of -1 says that the command
/// could not be dispatched; every other value is the remote exit code.
#[derive(Debug, Clone, PartialEq, Eq)]
pub struct CommandResult {
    pub stdout: String,
    pub stderr: String,
    pub exit_status: i32,
    pub success: bool,
    pub current_directory: String,
}

/// A `CommandResult` as plain text and numbers.
pub struct CommandResultView {
    pub stdout: Seq<char>,
    pub stderr: Seq<char>,
    pub exit_status: int,
    pub success: bool,
    pub current_directory: Seq<char>,
}

impl View for CommandResult {
    type V = CommandResultView;

    open spec fn view(&self) -> CommandResultView {
        CommandResultView {
            stdout: self.stdout@,
            stderr: self.stderr@,
            exit_status: self.exit_status as int,
            success: self.success,
            current_directory: self.current_directory@,
        }
    }
}

impl CommandResultView {
    /// `success` says no more and no less than that the exit status is zero.
    pub open spec fn well_formed(self) -> bool {
        self.success == (self.exit_status == 0)
    }
}

/// Whether `output` shows that `command` moved the session: the command
/// is a directory change and it exited with zero.
pub open spec fn moves_directory(command: Seq<char>, output: ChannelOutputView) -> bool {
    is_directory_change(command) && output.exit_status == 0
}

/// The tracked directory after `command` delivered `output` in a session
/// that was in `directory`. Only a directory change that succeeded moves
/// it, to what the appended query printed.
pub open spec fn directory_after(
    directory: Seq<char>,
    command: Seq<char>,
    output: ChannelOutputView,
) -> Seq<char> {
    if moves_directory(command, output) {
        trimmed(output.stdout)
    } else {
        directory
    }
}

/// The result handed to the caller after `command` delivered `output` in a
/// session that was in `directory`. The output of a successful directory
/// change is withheld: it is the answer to the appended query, not to the
/// caller's command.
pub open spec fn completed(
    directory: Seq<char>,
    command: Seq<char>,
    output: ChannelOutputView,
) -> CommandResultView {
    CommandResultView {
        stdout: if moves_directory(command, output) {
            Seq::empty()
        } else {
            output.stdout
        },
        stderr: output.stderr,
        exit_status: output.exit_status,
        success: output.exit_status == 0,
        current_directory: directory_after(directory, command, output),
    }
}

/// The result handed to the caller when `command` could not be dispatched
/// for `reason` in a session that is in `directory`.
pub open spec fn not_dispatched(directory: Seq<char>, reason: Seq<char>) -> CommandResultView {
    CommandResultView {
        stdout: Seq::empty(),
        stderr: "Command execution failed: "@ + reason,
        exit_status: -1,
        success: false,
        current_directory: directory,
    }
}

impl CommandResult {
    /// The result of a command that could not be dispatched.
    pub fn dispatch_failure(reason: &str, current_directory: &str) -> (result: CommandResult)
        ensures
            result@ == not_dispatched(current_directory@, reason@),
    {
        let mut stderr = String::from_str("Command execution failed: ");
        stderr.append(reason);
        CommandResult {
            stdout: String::new(),
            stderr,
            exit_status: -1,
            success: false,
            current_directory: String::from_str(current_directory),
        }
    }
}

} // verus!
