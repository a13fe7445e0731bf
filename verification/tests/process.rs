use dqcsim::log::Loglevel;
use dqcsim::process::{
    exit_report, stream_proxies, PollOutcome, Shutdown, ShutdownAction, ShutdownEvent,
    ShutdownPhase, StdStream, StreamProxy,
};
use dqcsim::types::StreamCaptureMode;

#[test]
fn proxies_for_captured_streams() {
    let p = stream_proxies("front", StreamCaptureMode::Capture(Loglevel::Warn), StreamCaptureMode::Capture(Loglevel::Info));
    assert_eq!(p.len(), 2);
    assert_eq!(p[0], StreamProxy { stream: StdStream::Stderr, logger: "front::stderr".to_string(), level: Loglevel::Warn });
    assert_eq!(p[1], StreamProxy { stream: StdStream::Stdout, logger: "front::stdout".to_string(), level: Loglevel::Info });
    let p = stream_proxies("back", StreamCaptureMode::Pass, StreamCaptureMode::Capture(Loglevel::Note));
    assert_eq!(p, vec![StreamProxy { stream: StdStream::Stdout, logger: "back::stdout".to_string(), level: Loglevel::Note }]);
    assert!(stream_proxies("x", StreamCaptureMode::Null, StreamCaptureMode::Pass).is_empty());
}

#[test]
fn shutdown_of_exited_process() {
    let mut s = Shutdown::new(true);
    assert_eq!(s.step(ShutdownEvent::ChildRunning(false)), ShutdownAction::Wait);
    assert_eq!(s.step(ShutdownEvent::Exited(Some(0))), ShutdownAction::Report(Some(0)));
    assert_eq!(s.phase, ShutdownPhase::Done);
    assert_eq!(s.step(ShutdownEvent::Killed), ShutdownAction::Ignore);
}

#[test]
fn shutdown_acknowledged() {
    let mut s = Shutdown::new(true);
    assert_eq!(s.step(ShutdownEvent::ChildRunning(true)), ShutdownAction::SendAbort);
    assert_eq!(s.step(ShutdownEvent::AbortSent), ShutdownAction::Poll);
    assert_eq!(s.step(ShutdownEvent::Polled(PollOutcome::NotYet)), ShutdownAction::SleepThenPoll(10));
    assert_eq!(s.step(ShutdownEvent::Polled(PollOutcome::NotYet)), ShutdownAction::SleepThenPoll(10));
    assert_eq!(s.step(ShutdownEvent::Polled(PollOutcome::Success)), ShutdownAction::Wait);
    assert_eq!(s.step(ShutdownEvent::Exited(Some(3))), ShutdownAction::Report(Some(3)));
}

#[test]
fn shutdown_times_out_and_kills() {
    let mut s = Shutdown::new(true);
    s.step(ShutdownEvent::ChildRunning(true));
    s.step(ShutdownEvent::AbortSent);
    assert_eq!(s.step(ShutdownEvent::Polled(PollOutcome::DeadlinePassed)), ShutdownAction::Kill);
    assert_eq!(s.step(ShutdownEvent::Killed), ShutdownAction::Wait);
    assert_eq!(s.step(ShutdownEvent::Exited(None)), ShutdownAction::Report(None));
}

#[test]
fn shutdown_without_timeout_never_polls() {
    let mut s = Shutdown::new(false);
    assert_eq!(s.step(ShutdownEvent::ChildRunning(true)), ShutdownAction::SendAbort);
    assert_eq!(s.step(ShutdownEvent::AbortSent), ShutdownAction::Wait);
    assert_eq!(s.phase, ShutdownPhase::Reaping);
    // An event out of turn changes nothing.
    assert_eq!(s.step(ShutdownEvent::Polled(PollOutcome::DeadlinePassed)), ShutdownAction::Ignore);
    assert_eq!(s.phase, ShutdownPhase::Reaping);
}

#[test]
fn exit_reports() {
    assert_eq!(exit_report(Some(0)), (Loglevel::Info, "PluginProcess exited with status code: 0".to_string()));
    assert_eq!(exit_report(Some(2)), (Loglevel::Warn, "PluginProcess exited with status code: 2".to_string()));
    assert_eq!(exit_report(Some(-1)), (Loglevel::Info, "PluginProcess exited with status code: -1".to_string()));
    assert_eq!(exit_report(None), (Loglevel::Warn, "PluginProcess terminated by signal".to_string()));
    assert_eq!(exit_report(Some(1907)).1, "PluginProcess exited with status code: 1907");
    assert_eq!(exit_report(Some(i32::MAX)).1, format!("PluginProcess exited with status code: {}", i32::MAX));
    assert_eq!(exit_report(Some(i32::MIN)).1, format!("PluginProcess exited with status code: {}", i32::MIN));
    assert_eq!(exit_report(Some(-40)).1, "PluginProcess exited with status code: -40");
}
