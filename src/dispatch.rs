//! Launching a due task: the shell command line and the records written for it.

use vstd::prelude::*;
use vstd::string::*;
use crate::instant::{valid_instant, stamp_text, format_stamp};

verus! {

/// The family of the host system, which decides the shell.
#[derive(Clone, Copy, Debug, PartialEq, Eq, Structural)]
pub enum ShellFamily {
    Unix,
    Windows,
}

/// A program and the arguments to start it with.
pub struct ShellInvocation {
    pub program: String,
    pub args: Vec<String>,
}

pub open spec fn shell_program(family: ShellFamily) -> Seq<char> {
    match family {
        ShellFamily::Unix => "sh"@,
        ShellFamily::Windows => "cmd"@,
    }
}

pub open spec fn shell_flag(family: ShellFamily) -> Seq<char> {
    match family {
        ShellFamily::Unix => "-c"@,
        ShellFamily::Windows => "/C"@,
    }
}

/// The shell invocation that runs `cmd` verbatim: `sh -c <cmd>` on Unix,
/// `cmd /C <cmd>` on Windows, the whole command as one argument.
pub fn shell_invocation(family: ShellFamily, cmd: &str) -> (r: ShellInvocation)
    ensures
        r.program@ == shell_program(family),
        r.args@.len() == 2,
        r.args@[0]@ == shell_flag(family),
        r.args@[1]@ == cmd@,
{
    let (program, flag) = match family {
        ShellFamily::Unix => (String::from_str("sh"), String::from_str("-c")),
        ShellFamily::Windows => (String::from_str("cmd"), String::from_str("/C")),
    };
    let mut args: Vec<String> = Vec::new();
    args.push(flag);
    args.push(String::from_str(cmd));
    ShellInvocation { program, args }
}

pub open spec fn launch_text(stamp: Seq<char>, name: Seq<char>, cmd: Seq<char>) -> Seq<char> {
    "["@ + stamp + " "@ + name + "] run: "@ + cmd
}

/// The record written for a launch at `now`: `[YYYY-MM-DD HH:MM:SS name] run: cmd`.
pub fn launch_line(now: i64, name: &str, cmd: &str) -> (r: String)
    requires
        valid_instant(now as int),
    ensures
        r@ == launch_text(stamp_text(now as int), name@, cmd@),
{
    let stamp = format_stamp(now);
    let mut line = String::from_str("[");
    line.append(stamp.as_str());
    line.append(" ");
    line.append(name);
    line.append("] run: ");
    line.append(cmd);
    line
}

pub open spec fn failure_text(cmd: Seq<char>, error: Seq<char>) -> Seq<char> {
    "error "@ + cmd + ": "@ + error
}

/// The record written where `cmd` could not be started: `error cmd: reason`.
pub fn failure_line(cmd: &str, error: &str) -> (r: String)
    ensures
        r@ == failure_text(cmd@, error@),
{
    let mut line = String::from_str("error ");
    line.append(cmd);
    line.append(": ");
    line.append(error);
    line
}

} // verus!
