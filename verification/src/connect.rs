//! The steps of a connection attempt, and the order they come in.
//!
//! An attempt opens a transport, offers a credential on it and asks for the
//! directory the session starts in. What to do next is decided here, from
//! how far the attempt has come; doing it is left to whoever holds the
//! transport. No step is taken for a configuration that names no way to
//! authenticate, none after a step that failed, and a session is handed out
//! only once its first directory query was answered.

use crate::client::{directory_query, AuthOutcome, SSHClient, SSHClientView};
use crate::config::{AuthMethod, SSHConnectionConfig};
use crate::error::ConnectError;
use crate::text::trimmed_end;
use vstd::prelude::*;

verus! {

/// How far a connection attempt has come: the last step taken, with what
/// came of it.
pub enum ConnectProgress<T> {
    /// No step has been taken.
    Started,
    /// The transport was asked for; holds it, or why there is none.
    Opened(Result<T, ConnectError>),
    /// The credential was offered on the transport; holds whether the
    /// server accepted it.
    Offered(T, bool),
    /// The directory query was run on the transport; holds what it
    /// printed, or why it printed nothing.
    Probed(T, Result<String, String>),
}

/// What a connection attempt does next.
pub enum ConnectAction<'a, T> {
    /// Open a transport to the host at the port.
    Open { host: &'a str, port: u16 },
    /// Offer the credential of `method` for `username` on the transport.
    Authenticate { session: T, username: &'a str, method: AuthMethod<'a> },
    /// Run `query` on the transport and read what it prints.
    Probe { session: T, query: &'a str },
    /// Stop: the attempt ended in a session or in a failure.
    Finish(Result<SSHClient<T>, ConnectError>),
}

impl<T> ConnectProgress<T> {
    /// The number of steps that may still follow.
    pub open spec fn steps_left(self) -> nat {
        match self {
            ConnectProgress::Started => 3,
            ConnectProgress::Opened(_) => 2,
            ConnectProgress::Offered(_, _) => 1,
            ConnectProgress::Probed(_, _) => 0,
        }
    }
}

/// Whether `action` is what an attempt under `config` does next once it
/// has come to `progress`.
pub open spec fn is_next_action<T>(
    config: SSHConnectionConfig,
    progress: ConnectProgress<T>,
    action: ConnectAction<T>,
) -> bool {
    if !config.has_auth_method() {
        action == ConnectAction::Finish(Err::<SSHClient<T>, ConnectError>(ConnectError::NoAuthMethod))
    } else {
        match progress {
            ConnectProgress::Started => action matches ConnectAction::Open { host, port } && host@
                == config.host@ && port == config.port,
            ConnectProgress::Opened(Err(error)) => action == ConnectAction::Finish(
                Err::<SSHClient<T>, ConnectError>(error),
            ),
            ConnectProgress::Opened(Ok(opened)) => {
                &&& action matches ConnectAction::Authenticate { session, username, method }
                &&& session == opened
                &&& username@ == config.username@
                &&& config.chooses(method)
            },
            ConnectProgress::Offered(_, false) => action == ConnectAction::Finish(
                Err::<SSHClient<T>, ConnectError>(config.refusal()),
            ),
            ConnectProgress::Offered(offered, true) => {
                &&& action matches ConnectAction::Probe { session, query }
                &&& session == offered
                &&& query@ == "pwd"@
            },
            ConnectProgress::Probed(_, Err(reason)) => action == ConnectAction::Finish(
                Err::<SSHClient<T>, ConnectError>(ConnectError::DirectoryProbe(reason)),
            ),
            ConnectProgress::Probed(probed, Ok(stdout)) => {
                &&& action matches ConnectAction::Finish(Ok(client))
                &&& client@ == (SSHClientView {
                    session: probed,
                    current_directory: trimmed_end(stdout@),
                })
            },
        }
    }
}

/// Whether `open` reported `opened` for the host and port of `config`.
pub open spec fn was_opened<T, O: Fn(&str, u16) -> Result<T, ConnectError>>(
    config: SSHConnectionConfig,
    open: O,
    opened: Result<T, ConnectError>,
) -> bool {
    exists|host: &str| host@ == config.host@ && #[trigger] open.ensures((host, config.port), opened)
}

/// Whether `authenticate` reported `accepted` for the user and the chosen
/// credential of `config` on `session`.
pub open spec fn was_offered<T, A: Fn(&T, &str, AuthMethod) -> bool>(
    config: SSHConnectionConfig,
    authenticate: A,
    session: T,
    accepted: bool,
) -> bool {
    exists|username: &str, method: AuthMethod|
        {
            &&& username@ == config.username@
            &&& config.chooses(method)
            &&& #[trigger] authenticate.ensures((&session, username, method), accepted)
        }
}

/// Whether `probe` reported `answer` for the directory query on `session`.
pub open spec fn was_probed<T, P: Fn(&T, &str) -> Result<String, String>>(
    probe: P,
    session: T,
    answer: Result<String, String>,
) -> bool {
    exists|query: &str| query@ == "pwd"@ && #[trigger] probe.ensures((&session, query), answer)
}

/// Whether an attempt under `config` can have come to `progress` through
/// `open`, `authenticate` and `probe`: each step taken on what the step
/// before delivered, the credential offered on the transport that was
/// opened, the query run on the transport that accepted the credential.
pub open spec fn reached<
    T,
    O: Fn(&str, u16) -> Result<T, ConnectError>,
    A: Fn(&T, &str, AuthMethod) -> bool,
    P: Fn(&T, &str) -> Result<String, String>,
>(
    config: SSHConnectionConfig,
    open: O,
    authenticate: A,
    probe: P,
    progress: ConnectProgress<T>,
) -> bool {
    match progress {
        ConnectProgress::Started => true,
        ConnectProgress::Opened(opened) => was_opened(config, open, opened),
        ConnectProgress::Offered(session, accepted) => {
            &&& was_opened(config, open, Ok::<T, ConnectError>(session))
            &&& was_offered(config, authenticate, session, accepted)
        },
        ConnectProgress::Probed(session, answer) => {
            &&& was_opened(config, open, Ok::<T, ConnectError>(session))
            &&& was_offered(config, authenticate, session, true)
            &&& was_probed(probe, session, answer)
        },
    }
}

/// Ends an attempt on `session` with `outcome`: the session if its
/// credential was accepted and its directory query answered, else the
/// failure that `outcome` stands for.
fn conclude<T>(config: &SSHConnectionConfig, session: T, outcome: AuthOutcome) -> (attempt: Result<
    SSHClient<T>,
    ConnectError,
>)
    requires
        config.has_auth_method(),
    ensures
        match outcome {
            AuthOutcome::Rejected => attempt == Err::<SSHClient<T>, ConnectError>(
                config.refusal(),
            ),
            AuthOutcome::ProbeFailed(reason) => attempt == Err::<SSHClient<T>, ConnectError>(
                ConnectError::DirectoryProbe(reason),
            ),
            AuthOutcome::Probed(stdout) => attempt matches Ok(client) && client@ == (SSHClientView {
                session,
                current_directory: trimmed_end(stdout@),
            }),
        },
{
    let mut client = SSHClient::new(session);
    let done = if config.password.is_some() {
        client.authenticate_with_password(outcome)
    } else {
        client.authenticate_with_key(outcome)
    };
    match done {
        Ok(()) => Ok(client),
        Err(error) => Err(error),
    }
}

/// Decides what an attempt under `config` does next once it has come to
/// `progress`.
///
/// - Without a way to authenticate: stop with the configuration error,
///   however far the attempt has come.
/// - Nothing done yet: open a transport to the host and port.
/// - No transport: stop with the reason.
/// - Transport opened: offer the chosen credential for the user.
/// - Credential refused: stop with the refusal of that credential.
/// - Credential accepted: run the directory query.
/// - Query failed: stop with its reason.
/// - Query answered: stop with the session, in the directory that the
///   answer names.
pub fn next_connect_action<'a, T>(
    config: &'a SSHConnectionConfig,
    progress: ConnectProgress<T>,
) -> (action: ConnectAction<'a, T>)
    ensures
        is_next_action(*config, progress, action),
        !(action is Finish) ==> progress.steps_left() > 0,
{
    let method = match config.auth_method() {
        Ok(method) => method,
        Err(error) => {
            return ConnectAction::Finish(Err(error));
        },
    };
    match progress {
        ConnectProgress::Started => ConnectAction::Open {
            host: config.host.as_str(),
            port: config.port,
        },
        ConnectProgress::Opened(Err(error)) => ConnectAction::Finish(Err(error)),
        ConnectProgress::Opened(Ok(session)) => ConnectAction::Authenticate {
            session,
            username: config.username.as_str(),
            method,
        },
        ConnectProgress::Offered(session, false) => ConnectAction::Finish(
            conclude(config, session, AuthOutcome::Rejected),
        ),
        ConnectProgress::Offered(session, true) => ConnectAction::Probe {
            session,
            query: directory_query(),
        },
        ConnectProgress::Probed(session, Err(reason)) => ConnectAction::Finish(
            conclude(config, session, AuthOutcome::ProbeFailed(reason)),
        ),
        ConnectProgress::Probed(session, Ok(stdout)) => ConnectAction::Finish(
            conclude(config, session, AuthOutcome::Probed(stdout)),
        ),
    }
}

/// Attempts the connection that `config` asks for: takes the step that
/// `next_connect_action` names, with `open`, `authenticate` or `probe`,
/// and goes on from what came of it until the attempt is finished.
pub fn establish_session<T, O, A, P>(
    config: &SSHConnectionConfig,
    open: O,
    authenticate: A,
    probe: P,
) -> (attempt: Result<SSHClient<T>, ConnectError>) where
    O: Fn(&str, u16) -> Result<T, ConnectError>,
    A: Fn(&T, &str, AuthMethod) -> bool,
    P: Fn(&T, &str) -> Result<String, String>,

    requires
        forall|host: &str, port: u16| #[trigger] open.requires((host, port)),
        forall|session: &T, username: &str, method: AuthMethod| #[trigger]
            authenticate.requires((session, username, method)),
        forall|session: &T, query: &str| #[trigger] probe.requires((session, query)),
    ensures
        exists|progress: ConnectProgress<T>|
            {
                &&& reached(*config, open, authenticate, probe, progress)
                &&& #[trigger] is_next_action(*config, progress, ConnectAction::Finish(attempt))
            },
{
    let mut progress = ConnectProgress::Started;
    loop
        invariant
            reached(*config, open, authenticate, probe, progress),
            forall|host: &str, port: u16| #[trigger] open.requires((host, port)),
            forall|session: &T, username: &str, method: AuthMethod| #[trigger]
                authenticate.requires((session, username, method)),
            forall|session: &T, query: &str| #[trigger] probe.requires((session, query)),
        decreases progress.steps_left(),
    {
        let ghost before = progress;
        match next_connect_action(config, progress) {
            ConnectAction::Open { host, port } => {
                let opened = open(host, port);
                progress = ConnectProgress::Opened(opened);
            },
            ConnectAction::Authenticate { session, username, method } => {
                let accepted = authenticate(&session, username, method);
                progress = ConnectProgress::Offered(session, accepted);
            },
            ConnectAction::Probe { session, query } => {
                let answer = probe(&session, query);
                progress = ConnectProgress::Probed(session, answer);
            },
            ConnectAction::Finish(attempt) => {
                assert(is_next_action(*config, before, ConnectAction::Finish(attempt)));
                return attempt;
            },
        }
    }
}

} // verus!
