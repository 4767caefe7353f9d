//! One session: a transport handle and the directory that commands are
//! taken to run in.
//!
//! The transport runs every command in its own channel, which starts in the
//! remote default directory. The session makes up for that: it remembers
//! where the last successful directory change led and sends every other
//! command from there.

use crate::command::{is_directory_change_command, remote_command_line, rewrite_command};
use crate::error::ConnectError;
use crate::response::{completed, directory_after, ChannelOutput, CommandResult};
use crate::text::{trim, trim_end, trimmed, trimmed_end};
use vstd::prelude::*;

verus! {

/// A session over the transport handle `T`. The handle is carried, never
/// looked into.
pub struct SSHClient<T> {
    session: T,
    current_directory: String,
}

/// An `SSHClient` as its handle and the text of its directory.
pub struct SSHClientView<T> {
    pub session: T,
    pub current_directory: Seq<char>,
}

impl<T> View for SSHClient<T> {
    type V = SSHClientView<T>;

    closed spec fn view(&self) -> SSHClientView<T> {
        SSHClientView { session: self.session, current_directory: self.current_directory@ }
    }
}

/// How an attempt to authenticate ended.
#[derive(Debug, Clone, PartialEq, Eq)]
pub enum AuthOutcome {
    /// The server refused the credential.
    Rejected,
    /// The credential was accepted, but the first directory query failed;
    /// holds the transport's reason.
    ProbeFailed(String),
    /// The credential was accepted; holds what the first directory query
    /// printed.
    Probed(String),
}

/// The command that asks the remote side for its working directory.
pub fn directory_query() -> (query: &'static str)
    ensures
        query@ == "pwd"@,
{
    "pwd"
}

/// The terminal type asked for on every command channel.
pub fn terminal_type() -> (terminal: &'static str)
    ensures
        terminal@ == "xterm"@,
{
    "xterm"
}

impl<T> SSHClient<T> {
    /// A session over a transport that has just been opened. No directory
    /// is tracked until the session has authenticated.
    pub fn new(session: T) -> (client: Self)
        ensures
            client@.session == session,
            client@.current_directory == Seq::<char>::empty(),
    {
        SSHClient { session, current_directory: String::new() }
    }

    /// The transport handle.
    pub fn session(&self) -> (session: &T)
        ensures
            *session == self@.session,
    {
        &self.session
    }

    /// The directory that commands are taken to run in; empty while none
    /// is tracked.
    pub fn get_current_directory(&self) -> (directory: &str)
        ensures
            directory@ == self@.current_directory,
    {
        self.current_directory.as_str()
    }

    /// Takes the answer to the first directory query as the tracked
    /// directory: what was printed, up to its trailing whitespace.
    pub fn update_current_directory(&mut self, stdout: &str)
        ensures
            final(self)@.session == old(self)@.session,
            final(self)@.current_directory == trimmed_end(stdout@),
    {
        self.current_directory = String::from_str(trim_end(stdout));
    }

    fn authenticate(&mut self, outcome: AuthOutcome, rejected: ConnectError) -> (done: Result<
        (),
        ConnectError,
    >)
        ensures
            final(self)@.session == old(self)@.session,
            match outcome {
                AuthOutcome::Rejected => done == Err::<(), ConnectError>(rejected) && final(self)@
                    == old(self)@,
                AuthOutcome::ProbeFailed(reason) => done == Err::<(), ConnectError>(
                    ConnectError::DirectoryProbe(reason),
                ) && final(self)@ == old(self)@,
                AuthOutcome::Probed(stdout) => done is Ok && final(self)@.current_directory
                    == trimmed_end(stdout@),
            },
    {
        match outcome {
            AuthOutcome::Rejected => Err(rejected),
            AuthOutcome::ProbeFailed(reason) => Err(ConnectError::DirectoryProbe(reason)),
            AuthOutcome::Probed(stdout) => {
                self.update_current_directory(stdout.as_str());
                Ok(())
            },
        }
    }

    /// Records how password authentication ended. Only an accepted password
    /// followed by an answered directory query makes the session usable;
    /// its directory is then what the query printed, up to its trailing
    /// whitespace.
    pub fn authenticate_with_password(&mut self, outcome: AuthOutcome) -> (done: Result<
        (),
        ConnectError,
    >)
        ensures
            final(self)@.session == old(self)@.session,
            match outcome {
                AuthOutcome::Rejected => done == Err::<(), ConnectError>(
                    ConnectError::PasswordRejected,
                ) && final(self)@ == old(self)@,
                AuthOutcome::ProbeFailed(reason) => done == Err::<(), ConnectError>(
                    ConnectError::DirectoryProbe(reason),
                ) && final(self)@ == old(self)@,
                AuthOutcome::Probed(stdout) => done is Ok && final(self)@.current_directory
                    == trimmed_end(stdout@),
            },
    {
        self.authenticate(outcome, ConnectError::PasswordRejected)
    }

    /// Records how private-key authentication ended. Only an accepted key
    /// followed by an answered directory query makes the session usable;
    /// its directory is then what the query printed, up to its trailing
    /// whitespace.
    pub fn authenticate_with_key(&mut self, outcome: AuthOutcome) -> (done: Result<
        (),
        ConnectError,
    >)
        ensures
            final(self)@.session == old(self)@.session,
            match outcome {
                AuthOutcome::Rejected => done == Err::<(), ConnectError>(ConnectError::KeyRejected)
                    && final(self)@ == old(self)@,
                AuthOutcome::ProbeFailed(reason) => done == Err::<(), ConnectError>(
                    ConnectError::DirectoryProbe(reason),
                ) && final(self)@ == old(self)@,
                AuthOutcome::Probed(stdout) => done is Ok && final(self)@.current_directory
                    == trimmed_end(stdout@),
            },
    {
        self.authenticate(outcome, ConnectError::KeyRejected)
    }

    /// The line to send for `command`: a directory change is followed by a
    /// directory query, any other command is sent from the tracked
    /// directory, and as it was given while none is tracked.
    pub fn command_line(&self, command: &str) -> (line: String)
        ensures
            line@ == remote_command_line(self@.current_directory, command@),
    {
        rewrite_command(self.current_directory.as_str(), command)
    }

    /// Takes in what the channel delivered for `command` and gives the
    /// caller's result. A directory change that exited with zero moves the
    /// session to what the query printed; nothing else moves it.
    pub fn execute_command(&mut self, command: &str, output: ChannelOutput) -> (result:
        CommandResult)
        ensures
            final(self)@.session == old(self)@.session,
            final(self)@.current_directory == directory_after(
                old(self)@.current_directory,
                command@,
                output@,
            ),
            result@ == completed(old(self)@.current_directory, command@, output@),
            output.exit_status != 0 ==> final(self)@ == old(self)@,
    {
        let success = output.exit_status == 0;
        if is_directory_change_command(command) && success {
            self.current_directory = String::from_str(trim(output.stdout.as_str()));
            CommandResult {
                stdout: String::new(),
                stderr: output.stderr,
                exit_status: output.exit_status,
                success,
                current_directory: self.current_directory.clone(),
            }
        } else {
            CommandResult {
                stdout: output.stdout,
                stderr: output.stderr,
                exit_status: output.exit_status,
                success,
                current_directory: self.current_directory.clone(),
            }
        }
    }
}

} // verus!
