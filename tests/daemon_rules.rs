use xero_auth::daemon::{
    accept_step, check_root, monitor_step, socket_mode, LoopAction, LoopEvent, MonitorAction, StartupError,
};
use xero_auth::launch::{launch_poll, LaunchError, LaunchPoll, LAUNCH_TIMEOUT_MS};
use xero_auth::status::{exit_code_from_status, exit_code_from_wait};

#[test]
fn root_check() {
    assert!(check_root(0).is_ok());
    assert_eq!(check_root(1000), Err(StartupError::NotRoot));
}

#[test]
fn socket_modes() {
    assert_eq!(socket_mode(None, false), 0o600);
    assert_eq!(socket_mode(None, true), 0o600);
    assert_eq!(socket_mode(Some(1000), true), 0o660);
    assert_eq!(socket_mode(Some(1000), false), 0o666);
}

#[test]
fn accept_loop_serves_until_flag() {
    assert_eq!(accept_step(false, LoopEvent::Accepted).action, LoopAction::Serve);
    assert_eq!(accept_step(false, LoopEvent::Tick).action, LoopAction::Continue);
    assert_eq!(accept_step(false, LoopEvent::AcceptFailed).action, LoopAction::Continue);
    for e in [LoopEvent::Accepted, LoopEvent::AcceptFailed, LoopEvent::Tick] {
        let d = accept_step(true, e);
        assert_eq!(d.action, LoopAction::Stop);
        assert!(!d.raise_shutdown);
    }
    let d = accept_step(false, LoopEvent::Interrupt);
    assert_eq!(d.action, LoopAction::Stop);
    assert!(d.raise_shutdown);
}

#[test]
fn parent_death_stops_loop() {
    assert_eq!(monitor_step(true), MonitorAction::KeepWatching);
    assert_eq!(monitor_step(false), MonitorAction::RequestShutdown);
    assert_eq!(accept_step(true, LoopEvent::Tick).action, LoopAction::Stop);
}

#[test]
fn wait_status_codes() {
    assert_eq!(exit_code_from_status(0), 0);
    assert_eq!(exit_code_from_status(3 << 8), 3);
    assert_eq!(exit_code_from_status(255 << 8), 255);
    assert_eq!(exit_code_from_status(9), 137);
    assert_eq!(exit_code_from_status(15), 143);
    // stopped by SIGSTOP: neither exited nor signalled
    assert_eq!(exit_code_from_status((19 << 8) | 0x7f), -1);
    assert_eq!(exit_code_from_wait(false, 0), -1);
    assert_eq!(exit_code_from_wait(true, 2 << 8), 2);
}

#[test]
fn launch_polling() {
    assert_eq!(launch_poll(true, true, LAUNCH_TIMEOUT_MS), LaunchPoll::Ready);
    assert_eq!(launch_poll(false, true, 0), LaunchPoll::Failed(LaunchError::HelperExited));
    assert_eq!(launch_poll(false, false, 60000), LaunchPoll::Failed(LaunchError::TimedOut));
    assert_eq!(launch_poll(false, false, 59999), LaunchPoll::Wait);
}
