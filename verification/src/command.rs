//! The status command's invocation: its name, its fixed arguments, and the
//! classification of its outcome.
//!
//! Spawning the child process is I/O and stays outside the library; the
//! process-side runner brings back the exit status and captured output as
//! plain values, and [`interpret_output`] turns them into the command's text
//! or a typed [`ExecError`], exactly as its contract says.

use vstd::prelude::*;

use crate::executor::ExecError;

verus! {

/// The status command to run: an executable name and fixed arguments. The
/// arguments are never interpolated into a shell string.
#[derive(Clone, Debug)]
pub struct CommandExecutor {
    pub command: String,
    pub args: Vec<String>,
}

impl CommandExecutor {
    /// A command invocation with the given executable name and arguments.
    pub fn new(command: String, args: Vec<String>) -> (r: CommandExecutor)
        ensures
            r.command == command,
            r.args == args,
    {
        CommandExecutor { command, args }
    }
}

/// Classifies what running the command produced. `spawned` is whether the
/// process could be started at all, `success` whether it exited with a zero
/// status, `exit_code` its status code (`None` when it was killed by a
/// signal), and `stdout_text` its captured standard output (`None` when that
/// output is not valid text). Every arm of the failure taxonomy comes out of
/// this one classification.
pub fn interpret_output(
    spawned: bool,
    success: bool,
    exit_code: Option<i32>,
    stdout_text: Option<String>,
) -> (r: Result<String, ExecError>)
    ensures
        match r {
            Ok(s) => spawned && success && stdout_text == Some(s),
            Err(e) => match e {
                ExecError::ExecutionFailed => !spawned,
                ExecError::NonZeroExit(c) => spawned && !success && exit_code == Some(c),
                ExecError::TerminatedBySignal => spawned && !success && exit_code is None,
                ExecError::InvalidOutput => spawned && success && stdout_text is None,
            },
        },
{
    if !spawned {
        Err(ExecError::ExecutionFailed)
    } else if !success {
        match exit_code {
            Some(code) => Err(ExecError::NonZeroExit(code)),
            None => Err(ExecError::TerminatedBySignal),
        }
    } else {
        match stdout_text {
            Some(s) => Ok(s),
            None => Err(ExecError::InvalidOutput),
        }
    }
}

} // verus!
