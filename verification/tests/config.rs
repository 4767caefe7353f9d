use remote_shell::address::select_ipv4;
use remote_shell::{AuthMethod, ConnectError, SSHConnectionConfig};

fn config(password: Option<&str>, key: Option<&str>, passphrase: Option<&str>) -> SSHConnectionConfig {
    SSHConnectionConfig {
        host: "example.org".to_string(),
        port: 22,
        username: "alice".to_string(),
        password: password.map(str::to_string),
        private_key_path: key.map(str::to_string),
        passphrase: passphrase.map(str::to_string),
    }
}

#[test]
fn connection_id_is_user_at_host_and_port() {
    assert_eq!(config(None, None, None).connection_id(), "alice@example.org:22");
    let other = SSHConnectionConfig {
        host: "10.0.0.7".to_string(),
        port: 2222,
        username: "root".to_string(),
        password: None,
        private_key_path: None,
        passphrase: None,
    };
    assert_eq!(other.connection_id(), "root@10.0.0.7:2222");
}

#[test]
fn connection_id_covers_the_range_of_ports() {
    let mut c = config(None, None, None);
    c.port = 0;
    assert_eq!(c.connection_id(), "alice@example.org:0");
    c.port = 65535;
    assert_eq!(c.connection_id(), "alice@example.org:65535");
}

#[test]
fn connection_id_does_not_depend_on_credentials() {
    assert_eq!(
        config(Some("secret"), None, None).connection_id(),
        config(None, Some("/k"), Some("p")).connection_id()
    );
}

#[test]
fn password_is_chosen_when_given() {
    let c = config(Some("secret"), None, None);
    assert_eq!(c.auth_method(), Ok(AuthMethod::Password { password: "secret" }));
}

#[test]
fn password_takes_precedence_over_a_key() {
    let c = config(Some("secret"), Some("/home/alice/.ssh/id_rsa"), Some("phrase"));
    assert_eq!(c.auth_method(), Ok(AuthMethod::Password { password: "secret" }));
}

#[test]
fn key_is_chosen_without_a_password() {
    let c = config(None, Some("/home/alice/.ssh/id_rsa"), None);
    assert_eq!(
        c.auth_method(),
        Ok(AuthMethod::PrivateKey { path: "/home/alice/.ssh/id_rsa", passphrase: None })
    );
}

#[test]
fn key_carries_its_passphrase() {
    let c = config(None, Some("/k"), Some("phrase"));
    assert_eq!(
        c.auth_method(),
        Ok(AuthMethod::PrivateKey { path: "/k", passphrase: Some("phrase") })
    );
}

#[test]
fn configuration_without_credentials_is_refused() {
    assert_eq!(config(None, None, None).auth_method(), Err(ConnectError::NoAuthMethod));
    assert_eq!(config(None, None, Some("phrase")).auth_method(), Err(ConnectError::NoAuthMethod));
}

#[test]
fn first_ipv4_address_is_selected() {
    assert_eq!(select_ipv4(&vec![true]), Ok(0));
    assert_eq!(select_ipv4(&vec![false, true, true]), Ok(1));
    assert_eq!(select_ipv4(&vec![false, false, false, true]), Ok(3));
}

#[test]
fn lookup_without_ipv4_address_fails() {
    assert_eq!(select_ipv4(&vec![]), Err(ConnectError::NoIpv4Address));
    assert_eq!(select_ipv4(&vec![false, false]), Err(ConnectError::NoIpv4Address));
}
