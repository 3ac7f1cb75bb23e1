use subagent::channel::{ChannelEvent, ChannelState};
use subagent::state::SubState;
use subagent::supervisor::ProcessSupervisor;

#[test]
fn fresh_supervisor_is_stopped() {
    let sup: ProcessSupervisor<u32> = ProcessSupervisor::new();
    assert_eq!(sup.current_state(), SubState::Stopped);
}

#[test]
fn start_from_stopped_launches_and_runs() {
    let mut sup: ProcessSupervisor<u32> = ProcessSupervisor::new();
    assert!(sup.start_requested());
    assert_eq!(sup.current_state(), SubState::Starting);
    sup.launch_completed(Some(11));
    assert_eq!(sup.current_state(), SubState::Running);
}

#[test]
fn start_is_idempotent_when_not_stopped() {
    let mut sup: ProcessSupervisor<u32> = ProcessSupervisor::new();
    assert!(sup.start_requested());
    // Already Starting: no second launch, twice in a row.
    assert!(!sup.start_requested());
    assert!(!sup.start_requested());
    assert_eq!(sup.current_state(), SubState::Starting);
    sup.launch_completed(Some(7));
    // Already Running: still no launch.
    assert!(!sup.start_requested());
    assert!(!sup.start_requested());
    assert_eq!(sup.current_state(), SubState::Running);
}

#[test]
fn stop_on_stopped_is_noop() {
    let mut sup: ProcessSupervisor<u32> = ProcessSupervisor::new();
    let handle = sup.stop_requested();
    assert!(handle.is_none());
    assert_eq!(sup.current_state(), SubState::Stopped);
}

#[test]
fn stop_takes_the_handle_and_finishes() {
    let mut sup: ProcessSupervisor<u32> = ProcessSupervisor::new();
    assert!(sup.start_requested());
    sup.launch_completed(Some(42));
    let handle = sup.stop_requested();
    assert_eq!(handle, Some(42));
    assert_eq!(sup.current_state(), SubState::Stopping);
    // A second stop while Stopping touches nothing.
    assert!(sup.stop_requested().is_none());
    sup.stop_completed();
    assert_eq!(sup.current_state(), SubState::Stopped);
}

#[test]
fn restart_from_stopped_launches_exactly_once() {
    let mut sup: ProcessSupervisor<u32> = ProcessSupervisor::new();
    let mut launches = 0;
    // The stop phase of a restart: a no-op on a Stopped supervisor.
    if sup.stop_requested().is_some() {
        sup.stop_completed();
    }
    if sup.current_state() == SubState::Stopped {
        if sup.start_requested() {
            launches += 1;
            sup.launch_completed(Some(5));
        }
    }
    assert_eq!(launches, 1);
    assert_eq!(sup.current_state(), SubState::Running);
}

#[test]
fn launch_failure_leaves_state_at_starting() {
    let mut sup: ProcessSupervisor<u32> = ProcessSupervisor::new();
    assert!(sup.start_requested());
    sup.launch_completed(None);
    assert_eq!(sup.current_state(), SubState::Starting);
    // The documented gap: a later start request is a no-op.
    assert!(!sup.start_requested());
    assert_eq!(sup.current_state(), SubState::Starting);
}

#[test]
fn channel_connects_and_reconnects() {
    let mut ch = ChannelState::Disconnected;
    ch.step(ChannelEvent::ConnectStarted);
    assert_eq!(ch, ChannelState::Connecting);
    ch.step(ChannelEvent::ConnectFailed);
    assert_eq!(ch, ChannelState::Disconnected);
    ch.step(ChannelEvent::ConnectStarted);
    ch.step(ChannelEvent::ConnectSucceeded);
    assert_eq!(ch, ChannelState::Connected);
}

#[test]
fn disconnect_leaves_the_supervised_process_alone() {
    let mut sup: ProcessSupervisor<u32> = ProcessSupervisor::new();
    assert!(sup.start_requested());
    sup.launch_completed(Some(9));
    assert_eq!(sup.current_state(), SubState::Running);

    let mut ch = ChannelState::Connected;
    ch.step(ChannelEvent::ConnectionLost);
    assert_eq!(ch, ChannelState::Disconnected);
    // The supervisor is untouched by the channel's fate.
    assert_eq!(sup.current_state(), SubState::Running);

    ch.step(ChannelEvent::ConnectStarted);
    ch.step(ChannelEvent::ConnectSucceeded);
    assert_eq!(ch, ChannelState::Connected);
    // Command processing resumes without a relaunch: start is still a no-op.
    assert!(!sup.start_requested());
    assert_eq!(sup.current_state(), SubState::Running);
}
