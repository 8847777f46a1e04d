//! How the program ends. The supervisor, the control surface and the
//! listener for termination signals run side by side; the first of them to
//! finish decides the exit code, and the others are abandoned.

use crate::error::Error;
use vstd::prelude::*;

verus! {

/// The exit code of a run that ended in good order.
pub const EXIT_SUCCESS: i32 = 0;

/// The exit code of a run that ended with an error or without a code.
pub const EXIT_FAILURE: u8 = 1;

/// What finished first.
#[derive(Debug)]
pub enum Finish {
    /// A termination signal arrived; `raw` is its number.
    Signal { raw: i32 },
    /// The command queue was closed, and the supervisor shut down.
    QueueClosed,
    /// The control surface stopped serving without an error.
    ControlSurfaceStopped,
    /// The control surface failed.
    ControlSurfaceFailed { error: Error },
}

/// The result of the run, given what finished first: the number of the
/// signal, success for an orderly end, or the error of the control surface.
pub open spec fn outcome(finish: Finish) -> Result<Option<i32>, Error> {
    match finish {
        Finish::Signal { raw } => Ok(Some(raw)),
        Finish::QueueClosed => Ok(Some(EXIT_SUCCESS)),
        Finish::ControlSurfaceStopped => Ok(Some(EXIT_SUCCESS)),
        Finish::ControlSurfaceFailed { error } => Err(error),
    }
}

/// The result of the run, given what finished first.
pub fn run_result(finish: Finish) -> (result: Result<Option<i32>, Error>)
    ensures
        result == outcome(finish),
{
    match finish {
        Finish::Signal { raw } => Ok(Some(raw)),
        Finish::QueueClosed => Ok(Some(EXIT_SUCCESS)),
        Finish::ControlSurfaceStopped => Ok(Some(EXIT_SUCCESS)),
        Finish::ControlSurfaceFailed { error } => Err(error),
    }
}

/// The exit code of the program as the byte that the operating system
/// takes: the low eight bits of the code where there is one, and
/// [`EXIT_FAILURE`] for an error or a missing code.
pub open spec fn exit_byte(result: Result<Option<i32>, Error>) -> u8 {
    match result {
        Ok(Some(code)) => code as u8,
        Ok(None) => EXIT_FAILURE,
        Err(_) => EXIT_FAILURE,
    }
}

/// The exit code of the program for the result of the run.
pub fn exit_code(result: &Result<Option<i32>, Error>) -> (code: u8)
    ensures
        code == exit_byte(*result),
{
    match result {
        Ok(Some(code)) => {
            #[verifier::truncate]
            (*code as u8)
        },
        Ok(None) => EXIT_FAILURE,
        Err(_) => EXIT_FAILURE,
    }
}

/// The low eight bits of a code are its remainder by 256, so a code from 0
/// to 255 is its own exit byte.
pub proof fn lemma_exit_byte_is_remainder(code: i32)
    ensures
        exit_byte(Ok(Some(code))) as int == (code as int) % 256,
        0 <= code < 256 ==> exit_byte(Ok(Some(code))) == code,
{
    assert((code as u8) == ((code & 0xff) as u8)) by (bit_vector);
    assert(0 <= (code & 0xff) < 256) by (bit_vector);
    assert((code & 0xff) as int == (code as int) % 256) by (bit_vector);
}

} // verus!
