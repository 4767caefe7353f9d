//! Directory-aware command sessions over a transport that runs every
//! command in a fresh environment.
//!
//! A session remembers the directory that its last successful `cd` led to
//! and sends every later command from there. Sessions live in a registry,
//! each under the identifier derived from user, host and port. The library
//! decides what is sent and what becomes of the answer; opening transports
//! and running channels is left to whoever holds them.

pub mod address;
pub mod client;
pub mod command;
pub mod config;
pub mod connect;
pub mod error;
pub mod laws;
pub mod operations;
pub mod response;
pub mod store;
pub mod text;

pub use crate::client::{AuthOutcome, SSHClient};
pub use crate::config::{AuthMethod, SSHConnectionConfig};
pub use crate::error::{CommandError, ConnectError};
pub use crate::connect::{establish_session, next_connect_action, ConnectAction, ConnectProgress};
pub use crate::operations::{
    connect_ssh, disconnect_ssh, execute_ssh_command, get_current_directory, list_ssh_connections,
    prepare_ssh_command, run_ssh_command, setup_ssh_commands,
};
pub use crate::response::{ChannelOutput, CommandResult, SSHConnectionResponse};
pub use crate::store::ConnectionsStore;
