use remote_shell::command::{is_directory_change_command, rewrite_command};

#[test]
fn cd_alone_is_a_directory_change() {
    assert!(is_directory_change_command("cd"));
    assert!(is_directory_change_command("  cd  "));
    assert!(is_directory_change_command("cd\n"));
}

#[test]
fn cd_and_a_space_begin_a_directory_change() {
    assert!(is_directory_change_command("cd /tmp"));
    assert!(is_directory_change_command("cd .."));
    assert!(is_directory_change_command("  cd /var/log  "));
    assert!(is_directory_change_command("cd /tmp && ls"));
    assert!(is_directory_change_command("cd  x"));
}

#[test]
fn other_commands_are_not_directory_changes() {
    assert!(!is_directory_change_command(""));
    assert!(!is_directory_change_command("   "));
    assert!(!is_directory_change_command("c"));
    assert!(!is_directory_change_command("pwd"));
    assert!(!is_directory_change_command("ls cd"));
    assert!(!is_directory_change_command("cdx"));
    assert!(!is_directory_change_command("cd/tmp"));
    assert!(!is_directory_change_command("cd\t/tmp"));
    assert!(!is_directory_change_command("CD /tmp"));
    assert!(!is_directory_change_command("echo cd /tmp"));
}

#[test]
fn directory_change_is_followed_by_a_directory_query() {
    assert_eq!(rewrite_command("/home/user", "cd /tmp"), "cd /tmp && pwd");
    assert_eq!(rewrite_command("", "cd /tmp"), "cd /tmp && pwd");
    assert_eq!(rewrite_command("/home/user", "cd   ../x  "), "cd ../x && pwd");
}

#[test]
fn directory_change_without_argument_keeps_its_place() {
    assert_eq!(rewrite_command("/home/user", "cd"), "cd  && pwd");
    assert_eq!(rewrite_command("/home/user", "cd   "), "cd  && pwd");
}

#[test]
fn directory_change_argument_is_not_escaped() {
    assert_eq!(rewrite_command("/", "cd /a b"), "cd /a b && pwd");
    assert_eq!(rewrite_command("/", "cd it's"), "cd it's && pwd");
    assert_eq!(rewrite_command("/", "cd /tmp && ls"), "cd /tmp && ls && pwd");
}

#[test]
fn directory_change_argument_follows_the_cd_of_the_trimmed_command() {
    assert_eq!(rewrite_command("/", "  cd /tmp"), "cd /tmp && pwd");
    assert_eq!(rewrite_command("/", " cd /tmp"), "cd /tmp && pwd");
    assert_eq!(rewrite_command("/", " cd"), "cd  && pwd");
    assert_eq!(rewrite_command("/", "\tcd\n"), "cd  && pwd");
    assert_eq!(rewrite_command("/", "\u{3000}cd /x"), "cd /x && pwd");
    assert_eq!(rewrite_command("/", "\u{3000}cd /tmp"), "cd /tmp && pwd");
    assert_eq!(rewrite_command("/", "\u{A0} cd   /a b \u{2003}"), "cd /a b && pwd");
}

#[test]
fn directory_change_argument_does_not_depend_on_outer_whitespace() {
    for command in ["cd /tmp", " cd /tmp", "cd /tmp ", "\n\tcd /tmp\r\n", "cd    /tmp"] {
        assert_eq!(rewrite_command("/home", command), "cd /tmp && pwd");
    }
}

#[test]
fn ordinary_command_runs_from_the_tracked_directory() {
    assert_eq!(rewrite_command("/tmp", "pwd"), "cd '/tmp' && pwd");
    assert_eq!(rewrite_command("/home/user", "ls -la"), "cd '/home/user' && ls -la");
    assert_eq!(rewrite_command("/srv/my dir", "  cat f  "), "cd '/srv/my dir' &&   cat f  ");
}

#[test]
fn ordinary_command_is_sent_as_given_while_no_directory_is_tracked() {
    assert_eq!(rewrite_command("", "pwd"), "pwd");
    assert_eq!(rewrite_command("", "  ls -la "), "  ls -la ");
    assert_eq!(rewrite_command("", ""), "");
}

#[test]
fn tracked_directory_is_not_escaped() {
    assert_eq!(rewrite_command("/it's", "ls"), "cd '/it's' && ls");
}
