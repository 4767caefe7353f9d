use remote_shell::client::{directory_query, terminal_type};
use remote_shell::{AuthOutcome, ChannelOutput, CommandResult, ConnectError, SSHClient};

fn output(stdout: &str, stderr: &str, exit_status: i32) -> ChannelOutput {
    ChannelOutput { stdout: stdout.to_string(), stderr: stderr.to_string(), exit_status }
}

fn session_in(directory: &str) -> SSHClient<u32> {
    let mut client = SSHClient::new(7);
    client.update_current_directory(directory);
    client
}

#[test]
fn new_session_tracks_no_directory() {
    let client = SSHClient::new(7u32);
    assert_eq!(client.get_current_directory(), "");
    assert_eq!(*client.session(), 7);
}

#[test]
fn probe_and_terminal_are_fixed() {
    assert_eq!(directory_query(), "pwd");
    assert_eq!(terminal_type(), "xterm");
}

#[test]
fn accepted_password_sets_the_directory_from_the_probe() {
    let mut client = SSHClient::new(1u32);
    let done = client.authenticate_with_password(AuthOutcome::Probed("/home/alice\n".to_string()));
    assert_eq!(done, Ok(()));
    assert_eq!(client.get_current_directory(), "/home/alice");
    assert_eq!(*client.session(), 1);
}

#[test]
fn accepted_key_sets_the_directory_from_the_probe() {
    let mut client = SSHClient::new(1u32);
    let done = client.authenticate_with_key(AuthOutcome::Probed("/root \r\n".to_string()));
    assert_eq!(done, Ok(()));
    assert_eq!(client.get_current_directory(), "/root");
}

#[test]
fn probe_answer_loses_its_trailing_whitespace_only() {
    let mut client = SSHClient::new(1u32);
    client.update_current_directory(" /srv/data \t\n");
    assert_eq!(client.get_current_directory(), " /srv/data");
    client.update_current_directory("\n");
    assert_eq!(client.get_current_directory(), "");
}

#[test]
fn directory_change_answer_loses_whitespace_at_both_ends() {
    let mut client = session_in("/srv");
    let result = client.execute_command("cd data", output("\r\n /srv/data \r\n", "", 0));
    assert_eq!(result.current_directory, "/srv/data");
    assert_eq!(client.get_current_directory(), "/srv/data");
}

#[test]
fn rejected_password_leaves_the_session_unusable() {
    let mut client = SSHClient::new(1u32);
    let done = client.authenticate_with_password(AuthOutcome::Rejected);
    assert_eq!(done, Err(ConnectError::PasswordRejected));
    assert_eq!(client.get_current_directory(), "");
}

#[test]
fn rejected_key_leaves_the_session_unusable() {
    let mut client = SSHClient::new(1u32);
    let done = client.authenticate_with_key(AuthOutcome::Rejected);
    assert_eq!(done, Err(ConnectError::KeyRejected));
    assert_eq!(client.get_current_directory(), "");
}

#[test]
fn failed_probe_fails_authentication_with_its_reason() {
    let mut client = SSHClient::new(1u32);
    let done = client.authenticate_with_password(AuthOutcome::ProbeFailed("channel closed".to_string()));
    assert_eq!(done, Err(ConnectError::DirectoryProbe("channel closed".to_string())));
    assert_eq!(client.get_current_directory(), "");
    let done = client.authenticate_with_key(AuthOutcome::ProbeFailed("timeout".to_string()));
    assert_eq!(done, Err(ConnectError::DirectoryProbe("timeout".to_string())));
}

#[test]
fn directory_persists_after_a_successful_change() {
    let mut client = session_in("/home/alice");
    assert_eq!(client.command_line("cd /tmp"), "cd /tmp && pwd");
    let changed = client.execute_command("cd /tmp", output("/tmp\r\n", "", 0));
    assert_eq!(
        changed,
        CommandResult {
            stdout: String::new(),
            stderr: String::new(),
            exit_status: 0,
            success: true,
            current_directory: "/tmp".to_string(),
        }
    );
    assert_eq!(client.get_current_directory(), "/tmp");

    assert_eq!(client.command_line("pwd"), "cd '/tmp' && pwd");
    let printed = client.execute_command("pwd", output("/tmp\r\n", "", 0));
    assert_eq!(printed.stdout, "/tmp\r\n");
    assert_eq!(printed.current_directory, "/tmp");
    assert!(printed.success);
    assert_eq!(client.get_current_directory(), "/tmp");
}

#[test]
fn failed_change_does_not_move_the_session() {
    let mut client = session_in("/home/alice");
    let failed = client.execute_command(
        "cd /nonexistent",
        output("", "bash: cd: /nonexistent: No such file or directory\r\n", 1),
    );
    assert_eq!(
        failed,
        CommandResult {
            stdout: String::new(),
            stderr: "bash: cd: /nonexistent: No such file or directory\r\n".to_string(),
            exit_status: 1,
            success: false,
            current_directory: "/home/alice".to_string(),
        }
    );
    assert_eq!(client.get_current_directory(), "/home/alice");
}

#[test]
fn failed_change_keeps_what_was_printed() {
    let mut client = session_in("/home/alice");
    let failed = client.execute_command("cd /x", output("cd: no such directory\n", "", 2));
    assert_eq!(failed.stdout, "cd: no such directory\n");
    assert_eq!(failed.exit_status, 2);
    assert_eq!(failed.current_directory, "/home/alice");
}

#[test]
fn ordinary_command_reports_what_was_captured() {
    let mut client = session_in("/srv");
    let result = client.execute_command("ls missing", output("", "ls: missing: not found\n", 2));
    assert_eq!(
        result,
        CommandResult {
            stdout: String::new(),
            stderr: "ls: missing: not found\n".to_string(),
            exit_status: 2,
            success: false,
            current_directory: "/srv".to_string(),
        }
    );
    let result = client.execute_command("echo hi", output("hi\n", "", 0));
    assert_eq!(result.stdout, "hi\n");
    assert!(result.success);
    assert_eq!(result.current_directory, "/srv");
    assert_eq!(client.get_current_directory(), "/srv");
}

#[test]
fn successful_change_keeps_stderr_and_withholds_stdout() {
    let mut client = session_in("/srv");
    let result = client.execute_command("cd logs", output("/srv/logs\n", "warning\n", 0));
    assert_eq!(result.stdout, "");
    assert_eq!(result.stderr, "warning\n");
    assert_eq!(result.current_directory, "/srv/logs");
}

#[test]
fn negative_exit_status_is_a_failure() {
    let mut client = session_in("/srv");
    let result = client.execute_command("cd /tmp", output("/tmp\n", "", -1));
    assert!(!result.success);
    assert_eq!(result.exit_status, -1);
    assert_eq!(result.stdout, "/tmp\n");
    assert_eq!(result.current_directory, "/srv");
}

#[test]
fn unset_directory_sends_commands_without_a_prefix() {
    let client = SSHClient::new(0u32);
    assert_eq!(client.command_line("ls -la"), "ls -la");
    assert_eq!(client.command_line("pwd"), "pwd");
}

#[test]
fn unset_directory_is_reported_as_empty() {
    let mut client = SSHClient::new(0u32);
    let result = client.execute_command("whoami", output("alice\n", "", 0));
    assert_eq!(result.current_directory, "");
    assert_eq!(result.stdout, "alice\n");
    assert_eq!(client.command_line("id"), "id");
}

#[test]
fn directory_query_is_idempotent() {
    let client = session_in("/var/tmp");
    let first = client.get_current_directory().to_string();
    let second = client.get_current_directory().to_string();
    assert_eq!(first, second);
    assert_eq!(first, "/var/tmp");
}

#[test]
fn dispatch_failure_is_reported_with_minus_one() {
    let result = CommandResult::dispatch_failure("channel could not be opened", "/srv");
    assert_eq!(
        result,
        CommandResult {
            stdout: String::new(),
            stderr: "Command execution failed: channel could not be opened".to_string(),
            exit_status: -1,
            success: false,
            current_directory: "/srv".to_string(),
        }
    );
}
