//! What a caller supplies to ask for a connection, and what follows from it
//! before any network traffic: the identifier and the way to authenticate.

use crate::error::ConnectError;
use crate::text::{decimal, decimal_text};
use vstd::prelude::*;

verus! {

/// The parameters of one connection request.
#[derive(Debug, Clone, PartialEq, Eq)]
pub struct SSHConnectionConfig {
    pub host: String,
    pub port: u16,
    pub username: String,
    pub password: Option<String>,
    pub private_key_path: Option<String>,
    pub passphrase: Option<String>,
}

/// The way a session proves who its user is.
#[derive(Debug, Clone, Copy, PartialEq, Eq)]
pub enum AuthMethod<'a> {
    /// By password.
    Password { password: &'a str },
    /// By a private key file, unlocked by the passphrase if there is one.
    PrivateKey { path: &'a str, passphrase: Option<&'a str> },
}

/// The identifier of the connection of `username` to `host` at `port`:
/// `username@host:port`.
pub open spec fn connection_id_text(username: Seq<char>, host: Seq<char>, port: nat) -> Seq<char> {
    username + "@"@ + host + ":"@ + decimal(port)
}

impl SSHConnectionConfig {
    /// The identifier under which this connection is registered.
    pub open spec fn id_text(&self) -> Seq<char> {
        connection_id_text(self.username@, self.host@, self.port as nat)
    }

    /// Whether the configuration names a way to authenticate.
    pub open spec fn has_auth_method(&self) -> bool {
        self.password is Some || self.private_key_path is Some
    }

    /// Whether `method` is the way this configuration authenticates: the
    /// password if there is one, else the private key with its passphrase.
    pub open spec fn chooses(&self, method: AuthMethod) -> bool {
        match method {
            AuthMethod::Password { password } => self.password matches Some(given) && password@
                == given@,
            AuthMethod::PrivateKey { path, passphrase } => {
                &&& self.password is None
                &&& self.private_key_path matches Some(given) && path@ == given@
                &&& match (passphrase, self.passphrase) {
                    (Some(chosen), Some(given)) => chosen@ == given@,
                    (None, None) => true,
                    _ => false,
                }
            },
        }
    }

    /// The failure that a refusal of the chosen credential is reported as.
    pub open spec fn refusal(&self) -> ConnectError {
        if self.password is Some {
            ConnectError::PasswordRejected
        } else {
            ConnectError::KeyRejected
        }
    }

    /// Writes the identifier under which this connection is registered.
    pub fn connection_id(&self) -> (id: String)
        ensures
            id@ == self.id_text(),
    {
        let mut id = self.username.clone();
        id.append("@");
        id.append(self.host.as_str());
        id.append(":");
        let port = decimal_text(self.port);
        id.append(port.as_str());
        id
    }

    /// Chooses how to authenticate. A password takes precedence over a
    /// private key; a configuration with neither is refused.
    pub fn auth_method(&self) -> (choice: Result<AuthMethod<'_>, ConnectError>)
        ensures
            match choice {
                Ok(method) => self.chooses(method),
                Err(error) => error == ConnectError::NoAuthMethod && !self.has_auth_method(),
            },
    {
        match &self.password {
            Some(password) => Ok(AuthMethod::Password { password: password.as_str() }),
            None => match &self.private_key_path {
                Some(path) => {
                    let passphrase = match &self.passphrase {
                        Some(passphrase) => Some(passphrase.as_str()),
                        None => None,
                    };
                    Ok(AuthMethod::PrivateKey { path: path.as_str(), passphrase })
                },
                None => Err(ConnectError::NoAuthMethod),
            },
        }
    }
}

} // verus!
