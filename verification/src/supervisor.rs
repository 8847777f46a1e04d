//! The supervisor as a machine of steps. Whoever drives it owns the queue,
//! the pause and the processes; the machine owns the decisions. It is told
//! each thing that happened as an [`Event`], together with what the
//! inspection of the held handle found at that moment; it changes the status
//! record, and answers with the [`Phase`] that says what it waits for next
//! and with the handle, if any, that left the record and must be terminated.

use crate::command::{
    spawn_failed, spawn_succeeded, start_command, stop_command, CommandAction, StatusView,
    TaskStatus, Timestamp, MSG_ALREADY_RUNNING, MSG_NOT_RUNNING,
};
use vstd::prelude::*;

verus! {

/// How many commands the queue holds before a sender has to wait.
pub const COMMAND_QUEUE_CAPACITY: usize = 5;

/// How long `Restart` pauses between giving up the old process and starting
/// the new one, in microseconds.
pub const RESTART_DELAY_MICROS: u64 = 1;

/// What the supervisor waits for.
#[derive(Clone, Copy, Debug, PartialEq, Eq, Structural)]
pub enum Phase {
    /// The next command from the queue.
    AwaitingCommand,
    /// The end of the pause of a `Restart`, [`RESTART_DELAY_MICROS`] long.
    AwaitingPause,
    /// The outcome of spawning the process.
    AwaitingSpawn,
    /// Nothing: the queue was closed, and the supervisor has shut down.
    Closed,
}

/// What happened.
#[derive(Debug)]
pub enum Event<H> {
    /// A command was taken from the queue.
    Command { action: CommandAction },
    /// The queue was closed by its senders.
    QueueClosed,
    /// The pause of a `Restart` is over.
    PauseElapsed,
    /// The process was spawned.
    Spawned { handle: H },
    /// The process could not be spawned.
    SpawnFailed { error: String },
}

/// The answer to an event.
#[derive(Debug)]
pub struct Step<H> {
    /// What the supervisor waits for next.
    pub phase: Phase,
    /// The handle that left the record or was refused by it. Whoever owns the
    /// process behind it terminates that process.
    pub released: Option<H>,
}

/// The record, the phase and the released handle after `event` arrived in
/// `phase` at the instant `now`. `finished` is what the inspection of the
/// handle in the record found at that moment; it has no meaning while no
/// handle is held.
///
/// A command is taken only while one is awaited. `Start` spawns unless a
/// process runs. `Stop` gives up the running process. `Restart` does what
/// `Stop` does, pauses, and then does what `Start` does. An event that the
/// phase does not wait for changes nothing; a handle that arrives with it is
/// released at once.
pub open spec fn next<H>(
    status: StatusView<H>,
    phase: Phase,
    event: Event<H>,
    finished: bool,
    now: Timestamp,
) -> (StatusView<H>, Phase, Option<H>) {
    match (phase, event) {
        (Phase::AwaitingCommand, Event::Command { action: CommandAction::Start })
        | (Phase::AwaitingPause, Event::PauseElapsed) => {
            let (after, spawn) = status.start(finished);
            (after, if spawn { Phase::AwaitingSpawn } else { Phase::AwaitingCommand }, None)
        },
        (Phase::AwaitingCommand, Event::Command { action: CommandAction::Stop }) => {
            let (after, released) = status.stop(finished, now);
            (after, Phase::AwaitingCommand, released)
        },
        (Phase::AwaitingCommand, Event::Command { action: CommandAction::Restart }) => {
            let (after, released) = status.stop(finished, now);
            (after, Phase::AwaitingPause, released)
        },
        (Phase::AwaitingCommand, Event::QueueClosed) => (status, Phase::Closed, None),
        (Phase::AwaitingSpawn, Event::Spawned { handle }) => {
            let (after, replaced) = status.spawned(handle);
            (after, Phase::AwaitingCommand, replaced)
        },
        (Phase::AwaitingSpawn, Event::SpawnFailed { error }) => (
            status.spawn_failed(error@),
            Phase::AwaitingCommand,
            None,
        ),
        (_, Event::Spawned { handle }) => (status, phase, Some(handle)),
        _ => (status, phase, None),
    }
}

/// The first half of `Restart`, at the instant `now`: what `Stop` does to the
/// record, and then the pause.
pub fn restart_command<H>(status: &mut TaskStatus<H>, finished: bool, now: Timestamp) -> (done:
    Step<H>)
    ensures
        (final(status)@, done.released) == old(status)@.stop(finished, now),
        done.phase == Phase::AwaitingPause,
{
    let released = stop_command(status, finished, now);
    Step { phase: Phase::AwaitingPause, released }
}

fn begin_start<H>(status: &mut TaskStatus<H>, finished: bool) -> (done: Step<H>)
    ensures
        final(status)@ == old(status)@.start(finished).0,
        done.released is None,
        done.phase == if old(status)@.start(finished).1 {
            Phase::AwaitingSpawn
        } else {
            Phase::AwaitingCommand
        },
{
    if start_command(status, finished) {
        Step { phase: Phase::AwaitingSpawn, released: None }
    } else {
        Step { phase: Phase::AwaitingCommand, released: None }
    }
}

/// Takes one event at the instant `now`, given what the inspection of the
/// held handle found.
pub fn step<H>(
    status: &mut TaskStatus<H>,
    phase: Phase,
    event: Event<H>,
    finished: bool,
    now: Timestamp,
) -> (done: Step<H>)
    ensures
        (final(status)@, done.phase, done.released) == next(
            old(status)@,
            phase,
            event,
            finished,
            now,
        ),
{
    match event {
        Event::Command { action } => match phase {
            Phase::AwaitingCommand => match action {
                CommandAction::Start => begin_start(status, finished),
                CommandAction::Stop => {
                    let released = stop_command(status, finished, now);
                    Step { phase: Phase::AwaitingCommand, released }
                },
                CommandAction::Restart => restart_command(status, finished, now),
            },
            _ => Step { phase, released: None },
        },
        Event::QueueClosed => match phase {
            Phase::AwaitingCommand => Step { phase: Phase::Closed, released: None },
            _ => Step { phase, released: None },
        },
        Event::PauseElapsed => match phase {
            Phase::AwaitingPause => begin_start(status, finished),
            _ => Step { phase, released: None },
        },
        Event::Spawned { handle } => match phase {
            Phase::AwaitingSpawn => {
                let replaced = spawn_succeeded(status, handle);
                Step { phase: Phase::AwaitingCommand, released: replaced }
            },
            _ => Step { phase, released: Some(handle) },
        },
        Event::SpawnFailed { error } => match phase {
            Phase::AwaitingSpawn => {
                spawn_failed(status, error.as_str());
                Step { phase: Phase::AwaitingCommand, released: None }
            },
            _ => Step { phase, released: None },
        },
    }
}

/// The status record after a step.
pub open spec fn status_after<H>(
    status: StatusView<H>,
    phase: Phase,
    event: Event<H>,
    finished: bool,
    now: Timestamp,
) -> StatusView<H> {
    next(status, phase, event, finished, now).0
}

/// The phase after a step.
pub open spec fn phase_after<H>(
    status: StatusView<H>,
    phase: Phase,
    event: Event<H>,
    finished: bool,
    now: Timestamp,
) -> Phase {
    next(status, phase, event, finished, now).1
}

/// The handle that a step released.
pub open spec fn released_by<H>(
    status: StatusView<H>,
    phase: Phase,
    event: Event<H>,
    finished: bool,
    now: Timestamp,
) -> Option<H> {
    next(status, phase, event, finished, now).2
}

/// The record once a `Start` has been carried through: as the step left it
/// where nothing was to be spawned, and with `handle` stored where the spawn
/// that the step asked for gave `handle`.
pub open spec fn started<H>(
    status: StatusView<H>,
    finished: bool,
    handle: H,
    now: Timestamp,
) -> StatusView<H> {
    let start = Event::Command { action: CommandAction::Start };
    let asked = status_after(status, Phase::AwaitingCommand, start, finished, now);
    if phase_after(status, Phase::AwaitingCommand, start, finished, now) == Phase::AwaitingSpawn {
        status_after(asked, Phase::AwaitingSpawn, Event::Spawned { handle }, false, now)
    } else {
        asked
    }
}

/// `Start` is idempotent. After one `Start` has been carried through, a
/// second `Start` that finds the process still running spawns nothing and
/// releases nothing; it changes the message and leaves the handle and the
/// instant as they were, so the record holds exactly one live handle.
pub proof fn lemma_start_twice_keeps_one_process<H>(
    status: StatusView<H>,
    finished: bool,
    handle: H,
    now: Timestamp,
    later: Timestamp,
)
    ensures
        ({
            let once = started(status, finished, handle, now);
            let again = Event::Command { action: CommandAction::Start };
            let twice = status_after(once, Phase::AwaitingCommand, again, false, later);
            &&& once.live_handles(false) == 1
            &&& phase_after(once, Phase::AwaitingCommand, again, false, later)
                == Phase::AwaitingCommand
            &&& released_by(once, Phase::AwaitingCommand, again, false, later) is None
            &&& twice.handle == once.handle
            &&& twice.timestamp == once.timestamp
            &&& twice.message == MSG_ALREADY_RUNNING@
            &&& twice.live_handles(false) == 1
        }),
{
}

/// `Stop` while nothing runs is harmless: the handle field and the instant
/// stay as they were, nothing is released, nothing is spawned, and the
/// message says that no task is running.
pub proof fn lemma_stop_when_idle_keeps_handle<H>(
    status: StatusView<H>,
    finished: bool,
    now: Timestamp,
)
    requires
        !status.running(finished),
    ensures
        ({
            let stop = Event::Command { action: CommandAction::Stop };
            let after = status_after(status, Phase::AwaitingCommand, stop, finished, now);
            &&& after.handle == status.handle
            &&& after.timestamp == status.timestamp
            &&& after.message == MSG_NOT_RUNNING@
            &&& released_by(status, Phase::AwaitingCommand, stop, finished, now) is None
            &&& phase_after(status, Phase::AwaitingCommand, stop, finished, now)
                == Phase::AwaitingCommand
        }),
{
}

/// `Restart` ends with a running process wherever it began, provided that
/// the process can be spawned. The first step pauses; the step after the
/// pause either asks for a spawn, and the record then holds the new handle,
/// or finds a process running. Where the second inspection agrees with what
/// `Stop` left (no handle, or one that has finished), it is always the first
/// of the two.
pub proof fn lemma_restart_ends_running<H>(
    status: StatusView<H>,
    finished: bool,
    refinished: bool,
    handle: H,
    now: Timestamp,
    later: Timestamp,
)
    ensures
        ({
            let restart = Event::Command { action: CommandAction::Restart };
            let stopped = status_after(status, Phase::AwaitingCommand, restart, finished, now);
            let resumed = Event::PauseElapsed;
            let asked = status_after(stopped, Phase::AwaitingPause, resumed, refinished, later);
            let resumed_in = phase_after(stopped, Phase::AwaitingPause, resumed, refinished, later);
            let spawned = Event::Spawned { handle };
            let ended = status_after(asked, Phase::AwaitingSpawn, spawned, false, later);
            &&& phase_after(status, Phase::AwaitingCommand, restart, finished, now)
                == Phase::AwaitingPause
            &&& !stopped.running(finished)
            &&& if resumed_in == Phase::AwaitingSpawn {
                &&& ended.handle == Some(handle)
                &&& ended.running(false)
                &&& phase_after(asked, Phase::AwaitingSpawn, spawned, false, later)
                    == Phase::AwaitingCommand
            } else {
                &&& resumed_in == Phase::AwaitingCommand
                &&& asked.running(refinished)
            }
            &&& (stopped.handle is Some ==> refinished) ==> resumed_in == Phase::AwaitingSpawn
        }),
{
}

/// The handles that a record holds: none or one.
pub open spec fn held<H>(status: StatusView<H>) -> Set<H> {
    match status.handle {
        Some(h) => set![h],
        None => Set::empty(),
    }
}

/// The processes that are alive after a step, where `live` were alive before
/// it: a process that the event brought is added, and the process whose
/// handle the step released is terminated.
pub open spec fn survivors<H>(live: Set<H>, event: Event<H>, released: Option<H>) -> Set<H> {
    let brought = match event {
        Event::Spawned { handle } => live.insert(handle),
        _ => live,
    };
    match released {
        Some(h) => brought.remove(h),
        None => brought,
    }
}

/// At most one process is alive, and it is the one in the record. If every
/// live process has its handle in the record before a step, then whatever
/// the phase, the event and the inspection, the same holds after it: the
/// step releases each handle that it takes out of the record and each that
/// it does not put in.
pub proof fn lemma_at_most_one_live<H>(
    status: StatusView<H>,
    phase: Phase,
    event: Event<H>,
    finished: bool,
    now: Timestamp,
    live: Set<H>,
)
    requires
        live.subset_of(held(status)),
    ensures
        ({
            let after = status_after(status, phase, event, finished, now);
            let alive = survivors(live, event, released_by(status, phase, event, finished, now));
            &&& alive.subset_of(held(after))
            &&& alive.finite()
            &&& alive.len() <= 1
            &&& forall|found: bool| after.live_handles(found) <= 1
        }),
{
    let after = status_after(status, phase, event, finished, now);
    let alive = survivors(live, event, released_by(status, phase, event, finished, now));
    assert(alive.subset_of(held(after)));
    assert(held(after).finite() && held(after).len() <= 1);
    vstd::set_lib::lemma_len_subset(alive, held(after));
}

} // verus!
