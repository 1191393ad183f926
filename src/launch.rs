//! Opening a worktree in an editor: which command to run and how a failure
//! of a custom command is described.
use vstd::prelude::*;

use crate::text::same_text;

verus! {

/// The editors that can be named by preset; each preset is also its command.
pub open spec fn is_preset(p: Seq<char>) -> bool {
    ||| p == "code"@
    ||| p == "cursor"@
    ||| p == "idea"@
    ||| p == "webstorm"@
    ||| p == "pycharm"@
    ||| p == "goland"@
}

/// The command that opens an editor: the preset's own name; for `custom`, the
/// custom command, which must be given.
pub fn ide_command(preset: &str, custom_command: &Option<String>) -> (r: Result<String, String>)
    ensures
        is_preset(preset@) ==> (r matches Ok(c) && c@ == preset@),
        preset@ == "custom"@ ==> match custom_command {
            Some(c) => r matches Ok(x) && x@ == c@,
            None => r matches Err(m) && m@ == "No custom command provided"@,
        },
        !is_preset(preset@) && preset@ != "custom"@ ==> (r matches Err(m) && m@
            == "Unknown IDE preset: "@ + preset@),
{
    proof {
        reveal_strlit("code");
        reveal_strlit("cursor");
        reveal_strlit("idea");
        reveal_strlit("webstorm");
        reveal_strlit("pycharm");
        reveal_strlit("goland");
        reveal_strlit("custom");
        assert("custom"@[2] != "cursor"@[2]);
        assert(!is_preset("custom"@));
    }
    if same_text(preset, "code") || same_text(preset, "cursor") || same_text(preset, "idea")
        || same_text(preset, "webstorm") || same_text(preset, "pycharm") || same_text(preset, "goland") {
        Ok(String::from_str(preset))
    } else if same_text(preset, "custom") {
        match custom_command {
            Some(c) => Ok(c.clone()),
            None => Err(String::from_str("No custom command provided")),
        }
    } else {
        Err(String::from_str("Unknown IDE preset: ").concat(preset))
    }
}

/// The shell line that runs `command` on `path`, the path in double quotes.
pub fn ide_shell_command(command: &str, path: &str) -> (r: String)
    ensures
        r@ == command@ + " \""@ + path@ + "\""@,
{
    String::from_str(command).concat(" \"").concat(path).concat("\"")
}

/// How a failed custom command is described: its error output, else its
/// standard output, else its exit status.
pub fn custom_command_error(stderr: &str, stdout: &str, status: &str) -> (r: String)
    ensures
        stderr@.len() > 0 ==> r@ == stderr@,
        stderr@.len() == 0 && stdout@.len() > 0 ==> r@ == stdout@,
        stderr@.len() == 0 && stdout@.len() == 0 ==> r@ == "Command exited with status: "@ + status@,
{
    if stderr.unicode_len() > 0 {
        String::from_str(stderr)
    } else if stdout.unicode_len() > 0 {
        String::from_str(stdout)
    } else {
        String::from_str("Command exited with status: ").concat(status)
    }
}

} // verus!
