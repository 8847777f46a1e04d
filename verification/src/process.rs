//! How the encoder is invoked, and what a run of it comes to.

use vstd::prelude::*;

verus! {

/// The program that encodes.
pub const ENCODER_PROGRAM: &'static str = "ffmpeg";

/// The completion code of a run that could not be spawned or waited for.
pub const FAILURE_CODE: i32 = 2;

/// A description of one invocation of a program, for a process runner to
/// carry out.
#[derive(Debug)]
pub struct Invocation {
    /// The program to run.
    pub program: String,
    /// Its arguments, in order.
    pub args: Vec<String>,
    /// Whether the standard output of the process is captured in a pipe.
    pub stdout_piped: bool,
    /// Whether the process is killed when its handle is dropped.
    pub kill_on_drop: bool,
}

/// The invocation of the encoder with the argument list `config`: the
/// output is piped, and the process does not outlive its handle.
pub fn ffmpeg_cmd(config: Vec<String>) -> (cmd: Invocation)
    ensures
        cmd.program@ == ENCODER_PROGRAM@,
        cmd.args == config,
        cmd.stdout_piped,
        cmd.kill_on_drop,
{
    Invocation {
        program: String::from_str(ENCODER_PROGRAM),
        args: config,
        stdout_piped: true,
        kill_on_drop: true,
    }
}

/// How a run of the encoder ended.
#[derive(Clone, Copy, Debug, PartialEq, Eq, Structural)]
pub enum TaskOutcome {
    /// The process exited; `code` is its exit code, absent where a signal
    /// ended it.
    Exited { code: Option<i32> },
    /// Waiting for the process failed.
    WaitFailed,
    /// The process could not be spawned.
    SpawnFailed,
}

impl TaskOutcome {
    /// The completion code of the run: the exit code of a process that
    /// exited, [`FAILURE_CODE`] for a failure to spawn or to wait.
    pub open spec fn code(self) -> Option<i32> {
        match self {
            TaskOutcome::Exited { code } => code,
            TaskOutcome::WaitFailed => Some(FAILURE_CODE),
            TaskOutcome::SpawnFailed => Some(FAILURE_CODE),
        }
    }
}

/// The completion code of a run that ended with `outcome`.
pub fn completion_code(outcome: TaskOutcome) -> (code: Option<i32>)
    ensures
        code == outcome.code(),
{
    match outcome {
        TaskOutcome::Exited { code } => code,
        TaskOutcome::WaitFailed => Some(FAILURE_CODE),
        TaskOutcome::SpawnFailed => Some(FAILURE_CODE),
    }
}

} // verus!
