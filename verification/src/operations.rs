//! The five operations a caller has: connect, execute, query the directory,
//! disconnect, list. Each works on the registry it is handed.
//!
//! Nothing here touches the network. Whoever holds the transport performs
//! what an operation asks for and hands back what came of it: `connect_ssh`
//! takes the outcome of the attempt, `execute_ssh_command` the outcome of
//! the dispatch that `prepare_ssh_command` described. `run_ssh_command`
//! puts the two in order for a caller who hands it the dispatch as a
//! function.

use crate::client::{SSHClient, SSHClientView};
use crate::command::remote_command_line;
use crate::config::SSHConnectionConfig;
use crate::error::{CommandError, ConnectError};
use crate::response::{
    completed, connected_response, failed_response, not_dispatched, outcome_view, ChannelOutput,
    ChannelOutputView, CommandResult, CommandResultView, SSHConnectionResponse,
    SSHConnectionResponseView,
};
use crate::store::{after_command, texts, ConnectionsStore};
use vstd::prelude::*;

verus! {

/// Whether an attempt under `config` that ended in `attempt` registers a
/// session: the configuration names a way to authenticate, and the attempt
/// got through authentication.
pub open spec fn registers<T>(
    config: SSHConnectionConfig,
    attempt: Result<SSHClient<T>, ConnectError>,
) -> bool {
    config.has_auth_method() && attempt is Ok
}

/// The answer to a connection request under `config` whose attempt ended in
/// `attempt`. A configuration without a way to authenticate is refused
/// whatever the attempt says.
pub open spec fn connect_answer<T>(
    config: SSHConnectionConfig,
    attempt: Result<SSHClient<T>, ConnectError>,
) -> SSHConnectionResponseView {
    if !config.has_auth_method() {
        failed_response(ConnectError::NoAuthMethod)
    } else {
        match attempt {
            Ok(_) => connected_response(config.id_text()),
            Err(error) => failed_response(error),
        }
    }
}

/// The registry after a connection request under `config` whose attempt
/// ended in `attempt`. Only a session that got through authentication is
/// registered; it replaces one registered under the same identifier.
pub open spec fn after_connect<T>(
    store: Map<Seq<char>, SSHClientView<T>>,
    config: SSHConnectionConfig,
    attempt: Result<SSHClient<T>, ConnectError>,
) -> Map<Seq<char>, SSHClientView<T>> {
    match attempt {
        Ok(client) if config.has_auth_method() => store.insert(config.id_text(), client@),
        _ => store,
    }
}

/// What `execute_ssh_command` reports for the session under `id`: `None`
/// if there is none; else the result of the command, or of the failure to
/// dispatch it.
pub open spec fn execute_report<T>(
    store: Map<Seq<char>, SSHClientView<T>>,
    id: Seq<char>,
    command: Seq<char>,
    outcome: Result<ChannelOutputView, Seq<char>>,
) -> Option<CommandResultView> {
    if store.contains_key(id) {
        Some(
            match outcome {
                Ok(output) => completed(store[id].current_directory, command, output),
                Err(reason) => not_dispatched(store[id].current_directory, reason),
            },
        )
    } else {
        None
    }
}

/// The registry after `execute_ssh_command`. A command that could not be
/// dispatched changes nothing.
pub open spec fn after_execute<T>(
    store: Map<Seq<char>, SSHClientView<T>>,
    id: Seq<char>,
    command: Seq<char>,
    outcome: Result<ChannelOutputView, Seq<char>>,
) -> Map<Seq<char>, SSHClientView<T>> {
    match outcome {
        Ok(output) => after_command(store, id, command, output),
        Err(_) => store,
    }
}

/// What `get_current_directory` reports for the session under `id`: `None`
/// if there is none, else its directory.
pub open spec fn directory_report<T>(store: Map<Seq<char>, SSHClientView<T>>, id: Seq<char>) -> Option<
    Seq<char>,
> {
    if store.contains_key(id) {
        Some(store[id].current_directory)
    } else {
        None
    }
}

/// What `disconnect_ssh` reports for `id`: whether a session was registered
/// under it.
pub open spec fn disconnect_report<T>(store: Map<Seq<char>, SSHClientView<T>>, id: Seq<char>) -> bool {
    store.contains_key(id)
}

/// The registry after `disconnect_ssh`.
pub open spec fn after_disconnect<T>(store: Map<Seq<char>, SSHClientView<T>>, id: Seq<char>) -> Map<
    Seq<char>,
    SSHClientView<T>,
> {
    store.remove(id)
}

/// A registry with no session in it.
pub fn setup_ssh_commands<T>() -> (connections: ConnectionsStore<T>)
    ensures
        connections@ == Map::<Seq<char>, SSHClientView<T>>::empty(),
{
    ConnectionsStore::new()
}

/// Concludes a connection request: registers the session if the attempt
/// produced one, and answers the caller either way. The caller is never
/// handed an error; a failure is an answer with `success` false.
pub fn connect_ssh<T>(
    config: &SSHConnectionConfig,
    attempt: Result<SSHClient<T>, ConnectError>,
    connections: &mut ConnectionsStore<T>,
) -> (response: SSHConnectionResponse)
    ensures
        response@ == connect_answer(*config, attempt),
        final(connections)@ == after_connect(old(connections)@, *config, attempt),
        !registers(*config, attempt) ==> final(connections)@ == old(connections)@,
{
    if config.password.is_none() && config.private_key_path.is_none() {
        return SSHConnectionResponse::failed(&ConnectError::NoAuthMethod);
    }
    match attempt {
        Ok(client) => {
            let connection_id = config.connection_id();
            connections.insert(connection_id.clone(), client);
            SSHConnectionResponse::connected(connection_id)
        },
        Err(error) => SSHConnectionResponse::failed(&error),
    }
}

/// Says what to dispatch for `command` on the session registered under
/// `connection_id`, and on which transport.
pub fn prepare_ssh_command<'a, T>(
    connection_id: &str,
    command: &str,
    connections: &'a ConnectionsStore<T>,
) -> (request: Result<(&'a T, String), CommandError>)
    ensures
        match request {
            Ok((session, line)) => {
                &&& connections@.contains_key(connection_id@)
                &&& *session == connections@[connection_id@].session
                &&& line@ == remote_command_line(
                    connections@[connection_id@].current_directory,
                    command@,
                )
            },
            Err(error) => error == CommandError::NotFound && !connections@.contains_key(
                connection_id@,
            ),
        },
{
    match connections.get(connection_id) {
        Some(client) => Ok((client.session(), client.command_line(command))),
        None => Err(CommandError::NotFound),
    }
}

/// Concludes a command on the session registered under `connection_id`.
/// `outcome` is what the channel delivered, or the reason the command could
/// not be dispatched. A remote failure is a result, not an error: the only
/// error is an identifier under which nothing is registered.
pub fn execute_ssh_command<T>(
    connection_id: &str,
    command: &str,
    outcome: Result<ChannelOutput, String>,
    connections: &mut ConnectionsStore<T>,
) -> (result: Result<CommandResult, CommandError>)
    ensures
        final(connections)@ == after_execute(
            old(connections)@,
            connection_id@,
            command@,
            outcome_view(outcome),
        ),
        match result {
            Ok(result) => execute_report(
                old(connections)@,
                connection_id@,
                command@,
                outcome_view(outcome),
            ) == Some(result@),
            Err(error) => error == CommandError::NotFound && execute_report(
                old(connections)@,
                connection_id@,
                command@,
                outcome_view(outcome),
            ) is None,
        },
{
    match outcome {
        Ok(output) => match connections.complete_command(connection_id, command, output) {
            Some(result) => Ok(result),
            None => Err(CommandError::NotFound),
        },
        Err(reason) => match connections.get(connection_id) {
            Some(client) => Ok(
                CommandResult::dispatch_failure(reason.as_str(), client.get_current_directory()),
            ),
            None => Err(CommandError::NotFound),
        },
    }
}

/// Runs `command` on the session registered under `connection_id`:
/// hands `dispatch` the session's transport and the line to send, and
/// concludes the command with what `dispatch` reports.
pub fn run_ssh_command<T, F>(
    connection_id: &str,
    command: &str,
    connections: &mut ConnectionsStore<T>,
    dispatch: F,
) -> (result: Result<CommandResult, CommandError>) where
    F: FnOnce(&T, &str) -> Result<ChannelOutput, String>,

    requires
        forall|session: &T, line: &str| #[trigger] dispatch.requires((session, line)),
    ensures
        match result {
            Ok(result) => exists|line: &str, outcome: Result<ChannelOutput, String>|
                {
                    &&& old(connections)@.contains_key(connection_id@)
                    &&& line@ == remote_command_line(
                        old(connections)@[connection_id@].current_directory,
                        command@,
                    )
                    &&& #[trigger] dispatch.ensures(
                        (&old(connections)@[connection_id@].session, line),
                        outcome,
                    )
                    &&& execute_report(
                        old(connections)@,
                        connection_id@,
                        command@,
                        outcome_view(outcome),
                    ) == Some(result@)
                    &&& final(connections)@ == after_execute(
                        old(connections)@,
                        connection_id@,
                        command@,
                        outcome_view(outcome),
                    )
                },
            Err(error) => {
                &&& error == CommandError::NotFound
                &&& !old(connections)@.contains_key(connection_id@)
                &&& final(connections)@ == old(connections)@
            },
        },
{
    let outcome = match prepare_ssh_command(connection_id, command, connections) {
        Ok((session, line)) => dispatch(session, line.as_str()),
        Err(error) => {
            return Err(error);
        },
    };
    execute_ssh_command(connection_id, command, outcome, connections)
}

/// The directory of the session registered under `connection_id`.
pub fn get_current_directory<T>(connection_id: &str, connections: &ConnectionsStore<T>) -> (directory:
    Result<String, CommandError>)
    ensures
        match directory {
            Ok(directory) => directory_report(connections@, connection_id@) == Some(directory@),
            Err(error) => error == CommandError::NotFound && directory_report(
                connections@,
                connection_id@,
            ) is None,
        },
{
    match connections.get(connection_id) {
        Some(client) => Ok(String::from_str(client.get_current_directory())),
        None => Err(CommandError::NotFound),
    }
}

/// Drops the session registered under `connection_id` and says whether
/// there was one.
pub fn disconnect_ssh<T>(connection_id: &str, connections: &mut ConnectionsStore<T>) -> (existed:
    bool)
    ensures
        existed == disconnect_report(old(connections)@, connection_id@),
        final(connections)@ == after_disconnect(old(connections)@, connection_id@),
{
    connections.remove(connection_id)
}

/// The identifiers of all registered sessions, each once, in no particular
/// order.
pub fn list_ssh_connections<T>(connections: &ConnectionsStore<T>) -> (ids: Vec<String>)
    ensures
        texts(ids@).no_duplicates(),
        texts(ids@).to_set() == connections@.dom(),
{
    connections.list_ids()
}

} // verus!
