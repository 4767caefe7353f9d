//! Classifying a requested command and rewriting it for a transport whose
//! every execution starts in the remote default directory.

use crate::text::{trim, trimmed};
use vstd::prelude::*;

verus! {

/// Whether `command` asks for a change of directory: trimmed, it is `cd`
/// alone or begins with `cd` and a space.
pub open spec fn is_directory_change(command: Seq<char>) -> bool {
    let t = trimmed(command);
    t == "cd"@ || "cd "@.is_prefix_of(t)
}

/// The argument of a directory change: what follows the `cd` that the
/// trimmed command begins with, itself trimmed. It is empty for `cd` alone.
pub open spec fn change_argument(command: Seq<char>) -> Seq<char> {
    trimmed(trimmed(command).skip(2))
}

/// The line that changes to `argument` and reports where that led.
pub open spec fn change_line(argument: Seq<char>) -> Seq<char> {
    "cd "@ + argument + " && pwd"@
}

/// The line that runs `command` from inside `directory`.
pub open spec fn in_directory_line(directory: Seq<char>, command: Seq<char>) -> Seq<char> {
    "cd '"@ + directory + "' && "@ + command
}

/// The line sent to the remote side for `command` while `current_directory`
/// is the tracked directory. A directory change is sent with its argument
/// as it stands, unescaped, and followed by a directory query. An ordinary
/// command is sent as it was given, whitespace included: from inside the
/// tracked directory, or alone while none is tracked.
pub open spec fn remote_command_line(current_directory: Seq<char>, command: Seq<char>) -> Seq<
    char,
> {
    if is_directory_change(command) {
        change_line(change_argument(command))
    } else if current_directory.len() == 0 {
        command
    } else {
        in_directory_line(current_directory, command)
    }
}

/// Decides whether `command` asks for a change of directory.
pub fn is_directory_change_command(command: &str) -> (b: bool)
    ensures
        b == is_directory_change(command@),
{
    proof {
        reveal_strlit("cd");
        reveal_strlit("cd ");
    }
    let t = trim(command);
    let n = t.unicode_len();
    if n < 2 {
        return false;
    }
    if t.get_char(0) != 'c' || t.get_char(1) != 'd' {
        assert("cd "@.is_prefix_of(t@) ==> t@.subrange(0, 3)[0] == 'c' && t@.subrange(0, 3)[1]
            == 'd');
        return false;
    }
    if n == 2 {
        assert(t@ =~= "cd"@);
        return true;
    }
    let spaced = t.get_char(2) == ' ';
    assert(spaced ==> "cd "@ =~= t@.subrange(0, 3));
    assert("cd "@.is_prefix_of(t@) ==> t@.subrange(0, 3)[2] == ' ');
    spaced
}

/// Builds the line to send for `command` while `current_directory` is the
/// tracked directory.
pub fn rewrite_command(current_directory: &str, command: &str) -> (line: String)
    ensures
        line@ == remote_command_line(current_directory@, command@),
{
    if is_directory_change_command(command) {
        proof {
            reveal_strlit("cd");
            reveal_strlit("cd ");
        }
        let given = trim(command);
        let n = given.unicode_len();
        let argument = trim(given.substring_char(2, n));
        let mut line = String::from_str("cd ");
        line.append(argument);
        line.append(" && pwd");
        line
    } else if current_directory.unicode_len() == 0 {
        String::from_str(command)
    } else {
        let mut line = String::from_str("cd '");
        line.append(current_directory);
        line.append("' && ");
        line.append(command);
        line
    }
}

} // verus!
