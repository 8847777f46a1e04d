use stream_control::command::{
    spawn_failed, spawn_succeeded, start_command, stop_command, CommandAction, TaskStatus,
    Timestamp,
};
use stream_control::error::ParseError;

fn at(seconds: i64) -> Timestamp {
    Timestamp { seconds, nanos: 0 }
}

fn idle() -> TaskStatus<u32> {
    TaskStatus::new("Ready".to_string(), at(100))
}

fn running(handle: u32) -> TaskStatus<u32> {
    let mut status = idle();
    assert_eq!(spawn_succeeded(&mut status, handle), None);
    status
}

#[test]
fn command_names() {
    assert_eq!(CommandAction::Start.to_string(), "Start");
    assert_eq!(CommandAction::Stop.to_string(), "Stop");
    assert_eq!(CommandAction::Restart.to_string(), "Restart");
    assert_eq!(CommandAction::Restart.as_str(), "Restart");
}

#[test]
fn command_from_its_name() {
    assert_eq!(CommandAction::from_str("Start"), Ok(CommandAction::Start));
    assert_eq!(CommandAction::from_str("Stop"), Ok(CommandAction::Stop));
    assert_eq!(CommandAction::from_str("Restart"), Ok(CommandAction::Restart));
}

#[test]
fn command_from_unknown_name_is_refused() {
    assert_eq!(CommandAction::from_str("start"), Err(ParseError::VariantNotFound));
    assert_eq!(CommandAction::from_str(""), Err(ParseError::VariantNotFound));
    assert_eq!(CommandAction::from_str("Sto"), Err(ParseError::VariantNotFound));
    assert_eq!(CommandAction::from_str("Restart "), Err(ParseError::VariantNotFound));
}

#[test]
fn new_status_is_idle() {
    let status = idle();
    assert_eq!(status.handle(), None);
    assert_eq!(status.message(), "Ready");
    assert_eq!(status.timestamp(), at(100));
    assert!(!status.running(false));
    assert!(!status.running(true));
}

#[test]
fn running_needs_a_handle_that_has_not_finished() {
    let status = running(7);
    assert!(status.running(false));
    assert!(!status.running(true));
}

#[test]
fn snapshot_shows_the_record() {
    let status = running(7);
    let shown = status.snapshot(false);
    assert!(shown.running);
    assert_eq!(shown.message, "Ready");
    assert_eq!(shown.timestamp, at(100));
    assert!(!status.snapshot(true).running);
    assert_eq!(status.handle(), Some(&7));
}

#[test]
fn start_when_idle_asks_for_a_spawn() {
    let mut status = idle();
    assert!(start_command(&mut status, false));
    assert_eq!(status.handle(), None);
    assert_eq!(status.message(), "Ready");
    assert_eq!(status.timestamp(), at(100));
}

#[test]
fn start_when_running_only_changes_the_message() {
    let mut status = running(7);
    assert!(!start_command(&mut status, false));
    assert_eq!(status.handle(), Some(&7));
    assert_eq!(status.message(), "Task is already running");
    assert_eq!(status.timestamp(), at(100));
}

#[test]
fn start_over_a_finished_handle_asks_for_a_spawn() {
    let mut status = running(7);
    assert!(start_command(&mut status, true));
    assert_eq!(status.handle(), Some(&7));
    assert_eq!(status.message(), "Ready");
}

#[test]
fn stop_when_running_gives_up_the_handle() {
    let mut status = running(7);
    assert_eq!(stop_command(&mut status, false, at(250)), Some(7));
    assert_eq!(status.handle(), None);
    assert_eq!(status.message(), "Task Stopped");
    assert_eq!(status.timestamp(), at(250));
}

#[test]
fn stop_on_idle_only_informs() {
    let mut status = idle();
    assert_eq!(stop_command(&mut status, false, at(250)), None);
    assert_eq!(status.handle(), None);
    assert_eq!(status.message(), "No task running");
    assert_eq!(status.timestamp(), at(100));
}

#[test]
fn stop_over_a_finished_handle_keeps_it() {
    let mut status = running(7);
    assert_eq!(stop_command(&mut status, true, at(250)), None);
    assert_eq!(status.handle(), Some(&7));
    assert_eq!(status.message(), "No task running");
    assert_eq!(status.timestamp(), at(100));
}

#[test]
fn spawn_success_stores_the_handle() {
    let mut status = idle();
    assert_eq!(spawn_succeeded(&mut status, 3), None);
    assert_eq!(status.handle(), Some(&3));
    assert_eq!(status.message(), "Ready");
    assert_eq!(status.timestamp(), at(100));
    assert_eq!(spawn_succeeded(&mut status, 4), Some(3));
    assert_eq!(status.handle(), Some(&4));
}

#[test]
fn spawn_failure_is_recorded_in_the_message() {
    let mut status = idle();
    spawn_failed(&mut status, "No such file or directory (os error 2)");
    assert_eq!(status.handle(), None);
    assert_eq!(
        status.message(),
        "Unable to spawn command: No such file or directory (os error 2)"
    );
    assert_eq!(status.timestamp(), at(100));
    assert!(!status.running(false));
}
