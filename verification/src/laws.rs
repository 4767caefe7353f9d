//! What holds of the sessions and of the registry through any sequence of
//! operations, stated over the models that the operations' contracts use.

use crate::client::{SSHClient, SSHClientView};
use crate::command::{in_directory_line, is_directory_change, remote_command_line};
use crate::config::SSHConnectionConfig;
use crate::connect::{is_next_action, ConnectAction, ConnectProgress};
use crate::error::ConnectError;
use crate::operations::{
    after_connect, after_disconnect, after_execute, connect_answer, directory_report,
    disconnect_report, execute_report, registers,
};
use crate::response::{completed, directory_after, ChannelOutputView};
use crate::text::trimmed;
use vstd::prelude::*;

verus! {

/// The steps of a connection attempt come in one order. A transport is
/// opened only as the first step, and only for a configuration that names
/// a way to authenticate. A credential is offered only on a transport that
/// was opened, the directory query is run only on a transport whose
/// credential was accepted, and a session is handed out only once that
/// query was answered. Every step leaves fewer to follow.
pub proof fn law_connect_steps_in_order<T>(
    config: SSHConnectionConfig,
    progress: ConnectProgress<T>,
    action: ConnectAction<T>,
)
    requires
        is_next_action(config, progress, action),
    ensures
        !config.has_auth_method() ==> action == ConnectAction::Finish(
            Err::<SSHClient<T>, ConnectError>(ConnectError::NoAuthMethod),
        ),
        action is Open ==> progress is Started,
        action matches ConnectAction::Authenticate { session, .. } ==> progress
            == ConnectProgress::Opened(Ok::<T, ConnectError>(session)),
        action matches ConnectAction::Probe { session, .. } ==> progress
            == ConnectProgress::Offered(session, true),
        action matches ConnectAction::Finish(Ok(client)) ==> progress matches ConnectProgress::Probed(
            session,
            Ok(_),
        ) && client@.session == session,
        !(action is Finish) ==> progress.steps_left() > 0,
{
}

/// A connection request registers a session exactly when it answers with
/// success, and then under the identifier it answers with. An attempt that
/// failed at any stage, and a configuration that names no way to
/// authenticate, leave the registry as it was and answer without an
/// identifier.
pub proof fn law_only_successful_attempts_register<T>(
    store: Map<Seq<char>, SSHClientView<T>>,
    config: SSHConnectionConfig,
    attempt: Result<SSHClient<T>, ConnectError>,
)
    ensures
        connect_answer(config, attempt).success == registers(config, attempt),
        registers(config, attempt) ==> {
            &&& connect_answer(config, attempt).connection_id == Some(config.id_text())
            &&& after_connect(store, config, attempt).contains_key(config.id_text())
            &&& after_connect(store, config, attempt)[config.id_text()] == attempt->Ok_0@
        },
        !registers(config, attempt) ==> {
            &&& connect_answer(config, attempt).connection_id is None
            &&& after_connect(store, config, attempt) == store
        },
{
}

/// A directory change that exits with zero moves the session to what the
/// appended query printed, trimmed, and says so in its result. Every
/// ordinary command after it is sent from that directory, leaves it where
/// it is whatever the command delivers, and reports it.
pub proof fn law_directory_persists(
    directory: Seq<char>,
    change: Seq<char>,
    changed: ChannelOutputView,
    command: Seq<char>,
    delivered: ChannelOutputView,
)
    requires
        is_directory_change(change),
        changed.exit_status == 0,
        !is_directory_change(command),
    ensures
        directory_after(directory, change, changed) == trimmed(changed.stdout),
        completed(directory, change, changed).current_directory == trimmed(changed.stdout),
        trimmed(changed.stdout).len() > 0 ==> remote_command_line(
            trimmed(changed.stdout),
            command,
        ) == in_directory_line(trimmed(changed.stdout), command),
        directory_after(trimmed(changed.stdout), command, delivered) == trimmed(changed.stdout),
        completed(trimmed(changed.stdout), command, delivered).current_directory == trimmed(
            changed.stdout,
        ),
{
}

/// A command that exits with anything but zero leaves the session where it
/// was, a directory change included, and reports that directory.
pub proof fn law_failure_keeps_directory(
    directory: Seq<char>,
    command: Seq<char>,
    delivered: ChannelOutputView,
)
    requires
        delivered.exit_status != 0,
    ensures
        directory_after(directory, command, delivered) == directory,
        completed(directory, command, delivered).current_directory == directory,
        !completed(directory, command, delivered).success,
        completed(directory, command, delivered).stdout == delivered.stdout,
{
}

/// Every result says that it succeeded exactly when its exit status is
/// zero.
pub proof fn law_success_is_exit_zero<T>(
    store: Map<Seq<char>, SSHClientView<T>>,
    id: Seq<char>,
    command: Seq<char>,
    outcome: Result<ChannelOutputView, Seq<char>>,
)
    requires
        store.contains_key(id),
    ensures
        execute_report(store, id, command, outcome) matches Some(result) && result.well_formed(),
{
}

/// The directory reported for a session is that of the registry as it
/// stands: it changes only when a directory change on that very session
/// exits with zero. A command on another session, a command that could not
/// be dispatched, an ordinary command, a directory change that failed and
/// the disconnection of another session all leave it as it was.
pub proof fn law_query_is_stable<T>(
    store: Map<Seq<char>, SSHClientView<T>>,
    id: Seq<char>,
    other: Seq<char>,
    command: Seq<char>,
    outcome: Result<ChannelOutputView, Seq<char>>,
)
    ensures
        other != id ==> directory_report(after_execute(store, other, command, outcome), id)
            == directory_report(store, id),
        other != id ==> directory_report(after_disconnect(store, other), id) == directory_report(
            store,
            id,
        ),
        outcome is Err ==> after_execute(store, id, command, outcome) == store,
        outcome matches Ok(delivered) && !(is_directory_change(command) && delivered.exit_status
            == 0) ==> directory_report(after_execute(store, id, command, outcome), id)
            == directory_report(store, id),
{
}

/// Concluding a command neither registers nor drops a session, and leaves
/// every transport handle where it is: a session stays usable after a
/// command that failed or could not be dispatched.
pub proof fn law_commands_keep_sessions<T>(
    store: Map<Seq<char>, SSHClientView<T>>,
    id: Seq<char>,
    command: Seq<char>,
    outcome: Result<ChannelOutputView, Seq<char>>,
)
    ensures
        after_execute(store, id, command, outcome).dom() == store.dom(),
        forall|any: Seq<char>| #[trigger]
            store.contains_key(any) ==> after_execute(store, id, command, outcome)[any].session
                == store[any].session,
{
    assert(after_execute(store, id, command, outcome).dom() =~= store.dom());
}

/// An identifier under which nothing is registered is reported as such by
/// a command and by a directory query, and the registry stays as it was.
pub proof fn law_unknown_identifier<T>(
    store: Map<Seq<char>, SSHClientView<T>>,
    id: Seq<char>,
    command: Seq<char>,
    outcome: Result<ChannelOutputView, Seq<char>>,
)
    requires
        !store.contains_key(id),
    ensures
        execute_report(store, id, command, outcome) is None,
        directory_report(store, id) is None,
        after_execute(store, id, command, outcome) == store,
        !disconnect_report(store, id),
{
}

/// Disconnecting reports a session exactly when one was registered. Once
/// disconnected, an identifier is unknown: a second disconnection reports
/// none and changes nothing, and a command or a directory query on it
/// finds nothing.
pub proof fn law_disconnect_once<T>(
    store: Map<Seq<char>, SSHClientView<T>>,
    id: Seq<char>,
    command: Seq<char>,
    outcome: Result<ChannelOutputView, Seq<char>>,
)
    ensures
        disconnect_report(store, id) == store.contains_key(id),
        !disconnect_report(after_disconnect(store, id), id),
        after_disconnect(after_disconnect(store, id), id) == after_disconnect(store, id),
        execute_report(after_disconnect(store, id), id, command, outcome) is None,
        directory_report(after_disconnect(store, id), id) is None,
{
    assert(store.remove(id).remove(id) =~= store.remove(id));
}

/// Commands on two different sessions do not touch each other: neither
/// changes what the other reports, and the registry ends the same in
/// whichever order the two are concluded.
pub proof fn law_sessions_are_independent<T>(
    store: Map<Seq<char>, SSHClientView<T>>,
    first: Seq<char>,
    first_command: Seq<char>,
    first_outcome: Result<ChannelOutputView, Seq<char>>,
    second: Seq<char>,
    second_command: Seq<char>,
    second_outcome: Result<ChannelOutputView, Seq<char>>,
)
    requires
        first != second,
    ensures
        execute_report(
            after_execute(store, first, first_command, first_outcome),
            second,
            second_command,
            second_outcome,
        ) == execute_report(store, second, second_command, second_outcome),
        after_execute(
            after_execute(store, first, first_command, first_outcome),
            second,
            second_command,
            second_outcome,
        ) == after_execute(
            after_execute(store, second, second_command, second_outcome),
            first,
            first_command,
            first_outcome,
        ),
{
    let one = after_execute(
        after_execute(store, first, first_command, first_outcome),
        second,
        second_command,
        second_outcome,
    );
    let other = after_execute(
        after_execute(store, second, second_command, second_outcome),
        first,
        first_command,
        first_outcome,
    );
    assert(one =~= other);
}

/// While no directory is tracked, an ordinary command is sent exactly as it
/// was given: nothing is put in front of it.
pub proof fn law_untracked_directory_sends_verbatim(command: Seq<char>)
    requires
        !is_directory_change(command),
    ensures
        remote_command_line(Seq::empty(), command) == command,
{
}

/// A command is sent from inside a directory only when one is tracked, and
/// then from that one.
pub proof fn law_prefix_needs_directory(directory: Seq<char>, command: Seq<char>)
    requires
        !is_directory_change(command),
    ensures
        remote_command_line(directory, command) == if directory.len() == 0 {
            command
        } else {
            in_directory_line(directory, command)
        },
{
}

} // verus!
