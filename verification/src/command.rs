//! The commands that an operator can queue, the status record of the
//! supervised slot, and what each command does to that record.
//!
//! The record is generic in the handle `H` of a spawned process: the
//! supervisor stores a handle, hands it back when it leaves the record, and
//! never looks inside it. Whether the process behind the held handle has
//! finished is found out by whoever owns the real process and passed in as
//! `finished` with each inspection.

use crate::error::ParseError;
use crate::text::str_equal;
use vstd::prelude::*;

verus! {

pub const MSG_ALREADY_RUNNING: &'static str = "Task is already running";

pub const MSG_STOPPED: &'static str = "Task Stopped";

pub const MSG_NOT_RUNNING: &'static str = "No task running";

pub const MSG_SPAWN_FAILED: &'static str = "Unable to spawn command: ";

/// A command that an operator sends to the supervisor.
#[derive(Clone, Copy, Debug, PartialEq, Eq, Structural)]
pub enum CommandAction {
    Start,
    Stop,
    Restart,
}

impl CommandAction {
    /// The name of the command: its variant's name.
    pub open spec fn name(self) -> Seq<char> {
        match self {
            CommandAction::Start => "Start"@,
            CommandAction::Stop => "Stop"@,
            CommandAction::Restart => "Restart"@,
        }
    }

    /// The name of the command.
    pub fn as_str(&self) -> (name: &'static str)
        ensures
            name@ == self.name(),
    {
        match self {
            CommandAction::Start => "Start",
            CommandAction::Stop => "Stop",
            CommandAction::Restart => "Restart",
        }
    }

    /// The name of the command, as an owned string.
    pub fn to_string(&self) -> (name: String)
        ensures
            name@ == self.name(),
    {
        String::from_str(self.as_str())
    }

    /// Reads a command from its name. Any other string is refused.
    pub fn from_str(s: &str) -> (action: Result<CommandAction, ParseError>)
        ensures
            match action {
                Ok(a) => a.name() == s@,
                Err(e) => e == ParseError::VariantNotFound && forall|a: CommandAction|
                    a.name() != s@,
            },
    {
        if str_equal(s, "Start") {
            Ok(CommandAction::Start)
        } else if str_equal(s, "Stop") {
            Ok(CommandAction::Stop)
        } else if str_equal(s, "Restart") {
            Ok(CommandAction::Restart)
        } else {
            Err(ParseError::VariantNotFound)
        }
    }
}

/// No two commands share a name, so a name names at most one command.
pub proof fn lemma_command_names_distinct(a: CommandAction, b: CommandAction)
    requires
        a.name() == b.name(),
    ensures
        a == b,
{
    reveal_strlit("Start");
    reveal_strlit("Stop");
    reveal_strlit("Restart");
    assert("Start"@.len() == 5 && "Stop"@.len() == 4 && "Restart"@.len() == 7);
}

/// An instant: whole seconds since the Unix epoch and the nanoseconds since
/// the last whole second.
#[derive(Clone, Copy, Debug, PartialEq, Eq, Structural)]
pub struct Timestamp {
    pub seconds: i64,
    pub nanos: u32,
}

/// Reads the clock. This is `chrono::Local::now()`, given as the seconds
/// (`DateTime::timestamp`) and nanoseconds (`DateTime::timestamp_subsec_nanos`)
/// of the instant. Nothing is claimed of the result.
#[verifier::external_body]
pub(crate) fn current_time() -> (now: Timestamp) {
    let now = chrono::Local::now();
    Timestamp { seconds: now.timestamp(), nanos: now.timestamp_subsec_nanos() }
}

/// What a status record holds, as plain values.
pub struct StatusView<H> {
    pub handle: Option<H>,
    pub message: Seq<char>,
    pub timestamp: Timestamp,
}

impl<H> StatusView<H> {
    /// Whether a process is running: a handle is held, and the process behind
    /// it was not found finished.
    pub open spec fn running(self, finished: bool) -> bool {
        self.handle is Some && !finished
    }

    /// How many processes the record holds that have not finished: none or one.
    pub open spec fn live_handles(self, finished: bool) -> nat {
        if self.running(finished) {
            1
        } else {
            0
        }
    }

    /// The record after `Start`, and whether a process is to be spawned.
    /// While a process runs, only the message changes and nothing is spawned.
    /// Otherwise the record stays as it is until the outcome of the spawn is
    /// known.
    pub open spec fn start(self, finished: bool) -> (StatusView<H>, bool) {
        if self.running(finished) {
            (StatusView { message: MSG_ALREADY_RUNNING@, ..self }, false)
        } else {
            (self, true)
        }
    }

    /// The record after `Stop` at the instant `now`, and the handle that left
    /// it. A running process is given up: its handle leaves the record, and
    /// the message and the instant are set. Otherwise only the message
    /// changes.
    pub open spec fn stop(self, finished: bool, now: Timestamp) -> (StatusView<H>, Option<H>) {
        if self.running(finished) {
            (StatusView { handle: None, message: MSG_STOPPED@, timestamp: now }, self.handle)
        } else {
            (StatusView { message: MSG_NOT_RUNNING@, ..self }, None)
        }
    }

    /// The record after a process was spawned, and the handle that the new
    /// one replaced.
    pub open spec fn spawned(self, handle: H) -> (StatusView<H>, Option<H>) {
        (StatusView { handle: Some(handle), ..self }, self.handle)
    }

    /// The record after a spawn failed with `error`: the message tells it,
    /// the rest stays.
    pub open spec fn spawn_failed(self, error: Seq<char>) -> StatusView<H> {
        StatusView { message: MSG_SPAWN_FAILED@ + error, ..self }
    }
}

/// The status record of the supervised slot: the handle of the process that
/// was last spawned and not yet given up, the last message, and the instant
/// of the last stop.
#[derive(Debug)]
pub struct TaskStatus<H> {
    handle: Option<H>,
    message: String,
    timestamp: Timestamp,
}

impl<H> View for TaskStatus<H> {
    type V = StatusView<H>;

    closed spec fn view(&self) -> StatusView<H> {
        StatusView { handle: self.handle, message: self.message@, timestamp: self.timestamp }
    }
}

impl<H> TaskStatus<H> {
    /// A record without a handle.
    pub fn new(message: String, timestamp: Timestamp) -> (status: TaskStatus<H>)
        ensures
            status@ == (StatusView::<H> { handle: None, message: message@, timestamp }),
    {
        TaskStatus { handle: None, message, timestamp }
    }

    /// A record without a handle, stamped with the present instant.
    pub fn idle(message: String) -> (status: TaskStatus<H>)
        ensures
            status@.handle is None,
            status@.message == message@,
    {
        TaskStatus::new(message, current_time())
    }

    /// The handle that the record holds.
    pub fn handle(&self) -> (handle: Option<&H>)
        ensures
            handle == match self@.handle {
                Some(h) => Some(&h),
                None => None,
            },
    {
        self.handle.as_ref()
    }

    /// The last message.
    pub fn message(&self) -> (message: &str)
        ensures
            message@ == self@.message,
    {
        self.message.as_str()
    }

    /// The instant of the last stop.
    pub fn timestamp(&self) -> (timestamp: Timestamp)
        ensures
            timestamp == self@.timestamp,
    {
        self.timestamp
    }

    /// Whether a process is running, given what the inspection of the held
    /// handle found.
    pub fn running(&self, finished: bool) -> (running: bool)
        ensures
            running == self@.running(finished),
    {
        self.handle.is_some() && !finished
    }
}

/// What a reader of the status record is shown.
#[derive(Debug)]
pub struct StatusSnapshot {
    /// Whether a process is running.
    pub running: bool,
    /// The last message.
    pub message: String,
    /// The instant of the last stop.
    pub timestamp: Timestamp,
}

impl<H> TaskStatus<H> {
    /// A copy of what the record shows, given what the inspection of the held
    /// handle found. The record is not changed.
    pub fn snapshot(&self, finished: bool) -> (shown: StatusSnapshot)
        ensures
            shown.running == self@.running(finished),
            shown.message@ == self@.message,
            shown.timestamp == self@.timestamp,
    {
        StatusSnapshot {
            running: self.running(finished),
            message: self.message.clone(),
            timestamp: self.timestamp,
        }
    }
}

/// `Start`: while a process runs the message says so and nothing else
/// happens; otherwise the record is left alone and the result asks for a
/// spawn, whose outcome goes to [`spawn_succeeded`] or [`spawn_failed`].
pub fn start_command<H>(status: &mut TaskStatus<H>, finished: bool) -> (spawn: bool)
    ensures
        (final(status)@, spawn) == old(status)@.start(finished),
{
    if status.running(finished) {
        status.message = String::from_str(MSG_ALREADY_RUNNING);
        false
    } else {
        true
    }
}

/// `Stop` at the instant `now`: a running process is given up, and its handle
/// is returned for termination; otherwise only the message changes.
pub fn stop_command<H>(status: &mut TaskStatus<H>, finished: bool, now: Timestamp) -> (released:
    Option<H>)
    ensures
        (final(status)@, released) == old(status)@.stop(finished, now),
{
    if status.running(finished) {
        let released = status.handle.take();
        status.message = String::from_str(MSG_STOPPED);
        status.timestamp = now;
        released
    } else {
        status.message = String::from_str(MSG_NOT_RUNNING);
        None
    }
}

/// Stores the handle of a process that was spawned, and returns the handle
/// that it replaced.
pub fn spawn_succeeded<H>(status: &mut TaskStatus<H>, handle: H) -> (replaced: Option<H>)
    ensures
        (final(status)@, replaced) == old(status)@.spawned(handle),
{
    let replaced = status.handle.take();
    status.handle = Some(handle);
    replaced
}

/// Records that a spawn failed with `error`.
pub fn spawn_failed<H>(status: &mut TaskStatus<H>, error: &str)
    ensures
        final(status)@ == old(status)@.spawn_failed(error@),
{
    status.message = String::from_str(MSG_SPAWN_FAILED).concat(error);
}

} // verus!
