//! Running the status command, seen from the library's side.
//!
//! The library never spawns a process itself: an [`Executor`] hands it the
//! command's captured standard output, or a typed failure. The process-side
//! runner classifies the raw outcome through
//! [`crate::command::interpret_output`], whose contract pins every case.

use vstd::prelude::*;

use crate::registry::{push_dec, spec_dec};

verus! {

/// Why running the status command failed.
#[derive(Clone, Copy, Debug, PartialEq, Eq, Structural)]
pub enum ExecError {
    /// The process could not be spawned.
    ExecutionFailed,
    /// The process exited with the given nonzero status code.
    NonZeroExit(i32),
    /// The process was killed by a signal.
    TerminatedBySignal,
    /// The process wrote something to standard output that is not valid text.
    InvalidOutput,
}

/// The decimal rendering of a signed value.
pub open spec fn spec_dec_signed(c: int) -> Seq<char> {
    if c >= 0 {
        spec_dec(c as nat)
    } else {
        "-"@ + spec_dec((-c) as nat)
    }
}

/// The diagnostic text of an execution failure.
pub open spec fn exec_error_text(e: ExecError) -> Seq<char> {
    match e {
        ExecError::ExecutionFailed => "command execution error"@,
        ExecError::NonZeroExit(c) => "process exited with status code "@ + spec_dec_signed(
            c as int,
        ),
        ExecError::TerminatedBySignal => "process terminated by signal"@,
        ExecError::InvalidOutput => "command output is not valid text"@,
    }
}

impl ExecError {
    /// The failure as a diagnostic message.
    pub fn message(&self) -> (r: String)
        ensures
            r@ == exec_error_text(*self),
    {
        match self {
            ExecError::ExecutionFailed => {
                let mut buf = String::new();
                buf.append("command execution error");
                buf
            },
            ExecError::NonZeroExit(c) => {
                let code: i32 = *c;
                let mut buf = String::new();
                buf.append("process exited with status code ");
                if code >= 0 {
                    push_dec(code as u64, &mut buf);
                } else {
                    buf.append("-");
                    let mag: u64 = (-(code as i64)) as u64;
                    push_dec(mag, &mut buf);
                }
                buf
            },
            ExecError::TerminatedBySignal => {
                let mut buf = String::new();
                buf.append("process terminated by signal");
                buf
            },
            ExecError::InvalidOutput => {
                let mut buf = String::new();
                buf.append("command output is not valid text");
                buf
            },
        }
    }
}

/// A runner of the status command: hands back the command's standard output,
/// or says how running it failed. Implementations live with the process
/// plumbing; the collection pipeline is verified against this interface.
pub trait Executor {
    fn execute(&self) -> (r: Result<String, ExecError>);
}

} // verus!
