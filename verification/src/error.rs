//! What can go wrong while a connection is set up or addressed, and the
//! text each failure is reported with.

use vstd::prelude::*;

verus! {

/// Why an attempt to connect did not lead to a registered session.
#[derive(Debug, Clone, PartialEq, Eq)]
pub enum ConnectError {
    /// The configuration names neither a password nor a private key.
    NoAuthMethod,
    /// The host name could not be looked up; holds the resolver's reason.
    Resolution(String),
    /// The lookup gave no IPv4 address.
    NoIpv4Address,
    /// No TCP connection could be made to the address.
    TcpConnect,
    /// The transport could not be negotiated; holds the transport's reason.
    Handshake(String),
    /// The server refused the password.
    PasswordRejected,
    /// The server refused the private key.
    KeyRejected,
    /// The first directory query failed after authentication; holds the
    /// transport's reason.
    DirectoryProbe(String),
}

impl ConnectError {
    /// Whether the failure came before any credential was offered.
    pub open spec fn before_authentication(&self) -> bool {
        self is Resolution || self is NoIpv4Address || self is TcpConnect || self is Handshake
    }

    /// The reason alone, without the stage it belongs to.
    pub open spec fn reason_text(&self) -> Seq<char> {
        match self {
            ConnectError::NoAuthMethod => "No authentication method provided (password or private_key_path required)"@,
            ConnectError::Resolution(reason) => reason@,
            ConnectError::NoIpv4Address => "Failed to resolve IPv4 address"@,
            ConnectError::TcpConnect => "Failed to establish TCP connection"@,
            ConnectError::Handshake(reason) => reason@,
            ConnectError::PasswordRejected => "Password authentication failed"@,
            ConnectError::KeyRejected => "Key authentication failed"@,
            ConnectError::DirectoryProbe(reason) => reason@,
        }
    }

    /// The message a caller is shown: the reason, behind the stage that
    /// failed. A configuration error has no stage.
    pub open spec fn message_text(&self) -> Seq<char> {
        if self is NoAuthMethod {
            self.reason_text()
        } else if self.before_authentication() {
            "Failed to create SSH connection: "@ + self.reason_text()
        } else {
            "Authentication failed: "@ + self.reason_text()
        }
    }

    /// Writes the reason alone.
    pub fn reason(&self) -> (text: &str)
        ensures
            text@ == self.reason_text(),
    {
        match self {
            ConnectError::NoAuthMethod => "No authentication method provided (password or private_key_path required)",
            ConnectError::Resolution(reason) => reason.as_str(),
            ConnectError::NoIpv4Address => "Failed to resolve IPv4 address",
            ConnectError::TcpConnect => "Failed to establish TCP connection",
            ConnectError::Handshake(reason) => reason.as_str(),
            ConnectError::PasswordRejected => "Password authentication failed",
            ConnectError::KeyRejected => "Key authentication failed",
            ConnectError::DirectoryProbe(reason) => reason.as_str(),
        }
    }

    /// Writes the message a caller is shown.
    pub fn message(&self) -> (text: String)
        ensures
            text@ == self.message_text(),
    {
        let stage = match self {
            ConnectError::NoAuthMethod => "",
            ConnectError::Resolution(_)
            | ConnectError::NoIpv4Address
            | ConnectError::TcpConnect
            | ConnectError::Handshake(_) => "Failed to create SSH connection: ",
            _ => "Authentication failed: ",
        };
        proof {
            reveal_strlit("");
        }
        let mut text = String::from_str(stage);
        text.append(self.reason());
        assert(self is NoAuthMethod ==> text@ =~= self.reason_text());
        text
    }
}

/// Why an operation on a registered connection could not be carried out.
#[derive(Debug, Clone, PartialEq, Eq)]
pub enum CommandError {
    /// No connection is registered under the identifier.
    NotFound,
    /// The registry could not be locked; holds the lock's reason.
    Lock(String),
}

impl CommandError {
    /// The message a caller is shown.
    pub open spec fn message_text(&self) -> Seq<char> {
        match self {
            CommandError::NotFound => "Connection not found. Please connect first."@,
            CommandError::Lock(reason) => "Lock error: "@ + reason@,
        }
    }

    /// Writes the message a caller is shown.
    pub fn message(&self) -> (text: String)
        ensures
            text@ == self.message_text(),
    {
        match self {
            CommandError::NotFound => String::from_str("Connection not found. Please connect first."),
            CommandError::Lock(reason) => {
                let mut text = String::from_str("Lock error: ");
                text.append(reason.as_str());
                text
            },
        }
    }
}

} // verus!
