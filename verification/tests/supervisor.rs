use stream_control::command::{CommandAction, TaskStatus, Timestamp};
use stream_control::supervisor::{
    restart_command, step, Event, Phase, Step, COMMAND_QUEUE_CAPACITY, RESTART_DELAY_MICROS,
};

fn at(seconds: i64) -> Timestamp {
    Timestamp { seconds, nanos: 0 }
}

fn idle() -> TaskStatus<u32> {
    TaskStatus::new("Ready".to_string(), at(100))
}

fn command(action: CommandAction) -> Event<u32> {
    Event::Command { action }
}

/// Carries a `Start` through with a runner that spawns `handle`.
fn start(status: &mut TaskStatus<u32>, finished: bool, handle: u32) -> Step<u32> {
    let asked = step(status, Phase::AwaitingCommand, command(CommandAction::Start), finished, at(1));
    if asked.phase == Phase::AwaitingSpawn {
        step(status, asked.phase, Event::Spawned { handle }, false, at(1))
    } else {
        asked
    }
}

#[test]
fn constants() {
    assert_eq!(COMMAND_QUEUE_CAPACITY, 5);
    assert_eq!(RESTART_DELAY_MICROS, 1);
}

#[test]
fn start_on_idle_spawns_and_stores_the_handle() {
    let mut status = idle();
    let asked = step(&mut status, Phase::AwaitingCommand, command(CommandAction::Start), false, at(1));
    assert_eq!(asked.phase, Phase::AwaitingSpawn);
    assert_eq!(asked.released, None);
    assert_eq!(status.handle(), None);
    let done = step(&mut status, asked.phase, Event::Spawned { handle: 11 }, false, at(2));
    assert_eq!(done.phase, Phase::AwaitingCommand);
    assert_eq!(done.released, None);
    assert_eq!(status.handle(), Some(&11));
    assert!(status.running(false));
    assert_eq!(status.message(), "Ready");
    assert_eq!(status.timestamp(), at(100));
}

#[test]
fn start_twice_leaves_one_process() {
    let mut status = idle();
    start(&mut status, false, 11);
    let again = step(&mut status, Phase::AwaitingCommand, command(CommandAction::Start), false, at(3));
    assert_eq!(again.phase, Phase::AwaitingCommand);
    assert_eq!(again.released, None);
    assert_eq!(status.handle(), Some(&11));
    assert_eq!(status.message(), "Task is already running");
    assert_eq!(status.timestamp(), at(100));
}

#[test]
fn stop_on_idle_says_no_task_running() {
    let mut status = idle();
    let done = step(&mut status, Phase::AwaitingCommand, command(CommandAction::Stop), false, at(5));
    assert_eq!(done.phase, Phase::AwaitingCommand);
    assert_eq!(done.released, None);
    assert_eq!(status.handle(), None);
    assert_eq!(status.message(), "No task running");
    assert_eq!(status.timestamp(), at(100));
}

#[test]
fn stop_on_finished_handle_leaves_the_handle_field() {
    let mut status = idle();
    start(&mut status, false, 11);
    let done = step(&mut status, Phase::AwaitingCommand, command(CommandAction::Stop), true, at(5));
    assert_eq!(done.phase, Phase::AwaitingCommand);
    assert_eq!(done.released, None);
    assert_eq!(status.handle(), Some(&11));
    assert_eq!(status.message(), "No task running");
    assert_eq!(status.timestamp(), at(100));
}

#[test]
fn stop_on_running_releases_the_handle() {
    let mut status = idle();
    start(&mut status, false, 11);
    let done = step(&mut status, Phase::AwaitingCommand, command(CommandAction::Stop), false, at(5));
    assert_eq!(done.phase, Phase::AwaitingCommand);
    assert_eq!(done.released, Some(11));
    assert_eq!(status.handle(), None);
    assert_eq!(status.message(), "Task Stopped");
    assert_eq!(status.timestamp(), at(5));
}

#[test]
fn spawn_failure_leaves_the_slot_idle() {
    let mut status = idle();
    let asked = step(&mut status, Phase::AwaitingCommand, command(CommandAction::Start), false, at(1));
    assert_eq!(asked.phase, Phase::AwaitingSpawn);
    let failed = Event::SpawnFailed { error: "No such file or directory (os error 2)".to_string() };
    let done = step(&mut status, asked.phase, failed, false, at(2));
    assert_eq!(done.phase, Phase::AwaitingCommand);
    assert_eq!(done.released, None);
    assert_eq!(status.handle(), None);
    assert!(!status.running(false));
    assert!(status.message().contains("No such file or directory (os error 2)"));
    assert_eq!(
        status.message(),
        "Unable to spawn command: No such file or directory (os error 2)"
    );
    // The loop goes on: the next command is taken as usual.
    let next = step(&mut status, done.phase, command(CommandAction::Stop), false, at(3));
    assert_eq!(next.phase, Phase::AwaitingCommand);
    assert_eq!(status.message(), "No task running");
}

#[test]
fn restart_from_idle_ends_running() {
    let mut status = idle();
    let stopped = step(&mut status, Phase::AwaitingCommand, command(CommandAction::Restart), false, at(5));
    assert_eq!(stopped.phase, Phase::AwaitingPause);
    assert_eq!(stopped.released, None);
    assert_eq!(status.message(), "No task running");
    let resumed = step(&mut status, stopped.phase, Event::PauseElapsed, false, at(6));
    assert_eq!(resumed.phase, Phase::AwaitingSpawn);
    let done = step(&mut status, resumed.phase, Event::Spawned { handle: 12 }, false, at(6));
    assert_eq!(done.phase, Phase::AwaitingCommand);
    assert_eq!(done.released, None);
    assert_eq!(status.handle(), Some(&12));
    assert!(status.running(false));
}

#[test]
fn restart_from_running_replaces_the_process() {
    let mut status = idle();
    start(&mut status, false, 11);
    let stopped = step(&mut status, Phase::AwaitingCommand, command(CommandAction::Restart), false, at(5));
    assert_eq!(stopped.phase, Phase::AwaitingPause);
    assert_eq!(stopped.released, Some(11));
    assert_eq!(status.handle(), None);
    assert_eq!(status.message(), "Task Stopped");
    assert_eq!(status.timestamp(), at(5));
    let resumed = step(&mut status, stopped.phase, Event::PauseElapsed, false, at(6));
    assert_eq!(resumed.phase, Phase::AwaitingSpawn);
    let done = step(&mut status, resumed.phase, Event::Spawned { handle: 12 }, false, at(6));
    assert_eq!(done.phase, Phase::AwaitingCommand);
    assert_eq!(status.handle(), Some(&12));
    assert!(status.running(false));
    assert_eq!(status.timestamp(), at(5));
}

#[test]
fn restart_over_a_finished_handle_replaces_it() {
    let mut status = idle();
    start(&mut status, false, 11);
    let stopped = step(&mut status, Phase::AwaitingCommand, command(CommandAction::Restart), true, at(5));
    assert_eq!(stopped.phase, Phase::AwaitingPause);
    assert_eq!(stopped.released, None);
    assert_eq!(status.handle(), Some(&11));
    let resumed = step(&mut status, stopped.phase, Event::PauseElapsed, true, at(6));
    assert_eq!(resumed.phase, Phase::AwaitingSpawn);
    let done = step(&mut status, resumed.phase, Event::Spawned { handle: 12 }, false, at(6));
    assert_eq!(done.released, Some(11));
    assert_eq!(status.handle(), Some(&12));
}

#[test]
fn restart_command_is_the_first_half() {
    let mut status = idle();
    start(&mut status, false, 11);
    let done = restart_command(&mut status, false, at(9));
    assert_eq!(done.phase, Phase::AwaitingPause);
    assert_eq!(done.released, Some(11));
    assert_eq!(status.handle(), None);
    assert_eq!(status.message(), "Task Stopped");
    assert_eq!(status.timestamp(), at(9));
}

#[test]
fn queue_closure_shuts_the_supervisor_down() {
    let mut status = idle();
    start(&mut status, false, 11);
    let done = step(&mut status, Phase::AwaitingCommand, Event::QueueClosed, false, at(5));
    assert_eq!(done.phase, Phase::Closed);
    assert_eq!(done.released, None);
    assert_eq!(status.handle(), Some(&11));
    assert_eq!(status.message(), "Ready");
    let after = step(&mut status, done.phase, command(CommandAction::Stop), false, at(6));
    assert_eq!(after.phase, Phase::Closed);
    assert_eq!(after.released, None);
    assert_eq!(status.handle(), Some(&11));
}

#[test]
fn a_handle_that_was_not_asked_for_is_released() {
    let mut status = idle();
    start(&mut status, false, 11);
    let done = step(&mut status, Phase::AwaitingCommand, Event::Spawned { handle: 99 }, false, at(5));
    assert_eq!(done.phase, Phase::AwaitingCommand);
    assert_eq!(done.released, Some(99));
    assert_eq!(status.handle(), Some(&11));
}

#[test]
fn events_out_of_turn_change_nothing() {
    let mut status = idle();
    let asked = step(&mut status, Phase::AwaitingCommand, command(CommandAction::Start), false, at(1));
    assert_eq!(asked.phase, Phase::AwaitingSpawn);
    let ignored = step(&mut status, asked.phase, command(CommandAction::Stop), false, at(2));
    assert_eq!(ignored.phase, Phase::AwaitingSpawn);
    assert_eq!(ignored.released, None);
    assert_eq!(status.message(), "Ready");
    let ignored = step(&mut status, ignored.phase, Event::PauseElapsed, false, at(2));
    assert_eq!(ignored.phase, Phase::AwaitingSpawn);
    let ignored = step(&mut status, ignored.phase, Event::QueueClosed, false, at(2));
    assert_eq!(ignored.phase, Phase::AwaitingSpawn);
    let failed = Event::SpawnFailed { error: "denied".to_string() };
    let ignored = step(&mut status, Phase::AwaitingCommand, failed, false, at(2));
    assert_eq!(ignored.phase, Phase::AwaitingCommand);
    assert_eq!(status.message(), "Ready");
}

#[test]
fn at_most_one_handle_through_a_run_of_commands() {
    let mut status = idle();
    let mut live: Vec<u32> = Vec::new();
    let mut next_handle: u32 = 1;
    let script: Vec<CommandAction> = vec![
        CommandAction::Start,
        CommandAction::Start,
        CommandAction::Restart,
        CommandAction::Stop,
        CommandAction::Stop,
        CommandAction::Restart,
        CommandAction::Restart,
        CommandAction::Start,
    ];
    for action in script {
        let mut phase = Phase::AwaitingCommand;
        let mut event = command(action);
        loop {
            let brought = match &event {
                Event::Spawned { handle } => Some(*handle),
                _ => None,
            };
            let done = step(&mut status, phase, event, false, at(1));
            if let Some(handle) = brought {
                live.push(handle);
            }
            if let Some(handle) = done.released {
                live.retain(|h| *h != handle);
            }
            assert!(live.len() <= 1);
            assert_eq!(live.first(), status.handle());
            phase = done.phase;
            event = match phase {
                Phase::AwaitingCommand => break,
                Phase::AwaitingPause => Event::PauseElapsed,
                Phase::AwaitingSpawn => {
                    next_handle += 1;
                    Event::Spawned { handle: next_handle }
                },
                Phase::Closed => unreachable!(),
            };
        }
    }
    assert_eq!(live.len(), 1);
    assert!(status.running(false));
}

#[test]
fn a_full_queue_refuses_the_sixth_command_without_losing_it() {
    let (sender, mut receiver) = tokio::sync::mpsc::channel::<CommandAction>(COMMAND_QUEUE_CAPACITY);
    for _ in 0..COMMAND_QUEUE_CAPACITY {
        assert!(sender.try_send(CommandAction::Start).is_ok());
    }
    match sender.try_send(CommandAction::Stop) {
        Err(tokio::sync::mpsc::error::TrySendError::Full(kept)) => {
            assert_eq!(kept, CommandAction::Stop)
        },
        _ => panic!("the sixth command was taken or the queue was closed"),
    }
    assert_eq!(receiver.try_recv().ok(), Some(CommandAction::Start));
    assert!(sender.try_send(CommandAction::Stop).is_ok());
    let mut taken: Vec<CommandAction> = Vec::new();
    while let Ok(action) = receiver.try_recv() {
        taken.push(action);
    }
    assert_eq!(
        taken,
        vec![
            CommandAction::Start,
            CommandAction::Start,
            CommandAction::Start,
            CommandAction::Start,
            CommandAction::Stop,
        ]
    );
}
