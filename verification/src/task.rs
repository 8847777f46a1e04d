//! The supervisor at work on tasks of the tokio runtime. A run of the
//! encoder is a task that waits for the process and ends with its completion
//! code; the handle in the status record is the handle of that task.

use crate::command::{current_time, StatusSnapshot, TaskStatus, Timestamp};
use crate::supervisor::{next, step, Event, Phase};
use tokio::task::JoinHandle;
use vstd::prelude::*;

verus! {

/// `tokio::task::JoinError`, the error with which a cancelled or panicked
/// task is joined. It is named only because awaiting a `JoinHandle` gives
/// it; nothing here looks inside one.
#[verifier::external_type_specification]
#[verifier::external_body]
pub struct ExJoinError(tokio::task::JoinError);

/// `tokio::task::JoinHandle`, the handle of a spawned task. It is carried
/// through as it is: nothing here looks inside one.
#[verifier::external_type_specification]
#[verifier::external_body]
#[verifier::reject_recursive_types(T)]
pub struct ExJoinHandle<T>(JoinHandle<T>);

/// The handle of a run of the encoder.
pub type TaskHandle = JoinHandle<Option<i32>>;

/// Whether the task behind `handle` has finished. This is
/// `JoinHandle::is_finished`; the answer is the task's state at the moment of
/// the call, and nothing is claimed of it.
#[verifier::external_body]
fn is_finished(handle: &TaskHandle) -> (finished: bool) {
    handle.is_finished()
}

/// Asks the runtime to cancel the task behind `handle`. This is
/// `JoinHandle::abort`; nothing is claimed of its effect.
#[verifier::external_body]
fn abort(handle: &TaskHandle) {
    handle.abort()
}

/// Inspects the handle in the record: whether the task behind it has
/// finished. Without a handle there is nothing that could still run, and the
/// answer is `true`.
pub fn inspect(status: &TaskStatus<TaskHandle>) -> (finished: bool)
    ensures
        status@.handle is None ==> finished,
{
    let answer = match status.handle() {
        Some(handle) => Some(is_finished(handle)),
        None => None,
    };
    found_finished(answer)
}

/// What an inspection finds, given the runtime's answer about the held
/// handle: that answer where a handle is held, and `true` without one.
pub open spec fn finding(answer: Option<bool>) -> bool {
    match answer {
        Some(finished) => finished,
        None => true,
    }
}

/// What an inspection finds, given the runtime's answer about the held
/// handle, if one is held.
pub fn found_finished(answer: Option<bool>) -> (finished: bool)
    ensures
        finished == finding(answer),
{
    match answer {
        Some(finished) => finished,
        None => true,
    }
}

/// Whether a task is running: a handle is held, and the task behind it has
/// not finished.
pub fn running(status: &TaskStatus<TaskHandle>) -> (running: bool)
    ensures
        running ==> status@.handle is Some,
        exists|finished: bool| running == #[trigger] status@.running(finished),
{
    let finished = inspect(status);
    let running = status.running(finished);
    assert(running == status@.running(finished));
    running
}

/// What a reader of the record is shown at this moment. The record is not
/// changed.
pub fn snapshot(status: &TaskStatus<TaskHandle>) -> (shown: StatusSnapshot)
    ensures
        shown.running ==> status@.handle is Some,
        exists|finished: bool| shown.running == #[trigger] status@.running(finished),
        shown.message@ == status@.message,
        shown.timestamp == status@.timestamp,
{
    let finished = inspect(status);
    let shown = status.snapshot(finished);
    assert(shown.running == status@.running(finished));
    shown
}

/// Takes one event now: inspects the held handle, reads the clock, takes the
/// [`step`], and cancels the task whose handle the step released. The result
/// is the phase that says what to wait for next.
pub fn command_orchestration(
    status: &mut TaskStatus<TaskHandle>,
    phase: Phase,
    event: Event<TaskHandle>,
) -> (waiting: Phase)
    ensures
        exists|finished: bool, now: Timestamp|
            {
                let after = #[trigger] next(old(status)@, phase, event, finished, now);
                &&& old(status)@.handle is None ==> finished
                &&& final(status)@ == after.0
                &&& waiting == after.1
            },
{
    let finished = inspect(status);
    let now = current_time();
    let done = step(status, phase, event, finished, now);
    match &done.released {
        Some(handle) => abort(handle),
        None => {},
    }
    proof {
        let after = next(old(status)@, phase, event, finished, now);
        assert(status@ == after.0 && done.phase == after.1);
    }
    done.phase
}

} // verus!
