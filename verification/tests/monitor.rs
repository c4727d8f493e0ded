use zcash_local_net::daemon::{error_marker, DaemonKind, POLL_INTERVAL_MILLIS};
use zcash_local_net::monitor::{classify, Action, Event, Monitor, Readiness};
use zcash_local_net::outcome::{ExitStatus, LaunchOutcome};

fn sleep_action() -> Action {
    Action::Sleep { millis: 100 }
}

#[test]
fn a_new_monitor_probes_first() {
    let monitor = Monitor::new(DaemonKind::Zcashd);
    assert_eq!(monitor.pending(), Action::Probe);
    assert!(!monitor.is_resolved());
    assert_eq!(monitor.kind(), DaemonKind::Zcashd);
    assert!(monitor.log().is_empty());
    assert!(monitor.into_outcome().is_none());
}

#[test]
fn poll_interval_is_one_tenth_of_a_second() {
    assert_eq!(POLL_INTERVAL_MILLIS, 100);
}

#[test]
fn zcashd_is_ready_one_poll_after_the_marker_is_written() {
    let mut monitor = Monitor::new(DaemonKind::Zcashd);
    let mut slept: u64 = 0;
    assert_eq!(monitor.step(Event::Running), Action::ReadLog);
    match monitor.step(Event::LogRead(Vec::new())) {
        Action::Sleep { millis } => slept += millis,
        other => panic!("expected a sleep, got {:?}", other),
    }
    assert_eq!(monitor.step(Event::Slept), Action::Probe);
    assert_eq!(monitor.step(Event::Running), Action::ReadLog);
    let action = monitor.step(Event::LogRead(b"init message: Done loading\n".to_vec()));
    assert_eq!(action, Action::Finish);
    assert_eq!(slept, 100);
    assert!(monitor.is_resolved());
    assert!(matches!(monitor.into_outcome(), Some(LaunchOutcome::Ready)));
}

#[test]
fn a_process_that_exits_with_status_one_fails_with_its_output() {
    let mut monitor = Monitor::new(DaemonKind::Zcashd);
    assert_eq!(monitor.step(Event::Exited(ExitStatus::new(Some(1)))), Action::Collect);
    let action = monitor.step(Event::Collected {
        log: b"starting\n".to_vec(),
        stderr: b"cannot open wallet\n".to_vec(),
    });
    assert_eq!(action, Action::Finish);
    match monitor.into_outcome() {
        Some(LaunchOutcome::Failed { exit_status, stdout, stderr }) => {
            assert_eq!(exit_status.code, Some(1));
            assert!(!exit_status.success());
            assert_eq!(stdout, b"starting\n".to_vec());
            assert_eq!(stderr, b"cannot open wallet\n".to_vec());
        }
        other => panic!("expected a failure, got {:?}", other),
    }
}

#[test]
fn a_failure_reports_the_log_read_before_and_after_the_exit() {
    let mut monitor = Monitor::new(DaemonKind::Zainod);
    assert_eq!(monitor.step(Event::Running), Action::ReadLog);
    assert_eq!(monitor.step(Event::LogRead(b"one ".to_vec())), sleep_action());
    assert_eq!(monitor.step(Event::Slept), Action::Probe);
    assert_eq!(monitor.step(Event::Running), Action::ReadLog);
    assert_eq!(monitor.step(Event::LogRead(b"two ".to_vec())), sleep_action());
    assert_eq!(monitor.step(Event::Slept), Action::Probe);
    assert_eq!(monitor.step(Event::Exited(ExitStatus::new(None))), Action::Collect);
    assert_eq!(
        monitor.step(Event::Collected { log: b"three".to_vec(), stderr: Vec::new() }),
        Action::Finish
    );
    assert_eq!(monitor.log(), &b"one two three".to_vec());
    match monitor.into_outcome() {
        Some(LaunchOutcome::Failed { exit_status, stdout, stderr }) => {
            assert_eq!(exit_status.code, None);
            assert_eq!(stdout, b"one two three".to_vec());
            assert!(stderr.is_empty());
        }
        other => panic!("expected a failure, got {:?}", other),
    }
}

#[test]
fn a_success_marker_left_by_an_exited_process_is_a_failure() {
    let mut monitor = Monitor::new(DaemonKind::Zcashd);
    assert_eq!(monitor.step(Event::Exited(ExitStatus::new(Some(0)))), Action::Collect);
    let action = monitor.step(Event::Collected {
        log: b"init message: Done loading".to_vec(),
        stderr: Vec::new(),
    });
    assert_eq!(action, Action::Finish);
    match monitor.into_outcome() {
        Some(LaunchOutcome::Failed { exit_status, stdout, .. }) => {
            assert!(exit_status.success());
            assert_eq!(stdout, b"init message: Done loading".to_vec());
        }
        other => panic!("expected a failure, got {:?}", other),
    }
}

#[test]
fn an_error_marker_from_a_running_process_aborts() {
    let mut monitor = Monitor::new(DaemonKind::Zcashd);
    assert_eq!(monitor.step(Event::Running), Action::ReadLog);
    let action = monitor.step(Event::LogRead(b"Error: bad config\n".to_vec()));
    assert_eq!(action, Action::Finish);
    assert!(matches!(monitor.into_outcome(), Some(LaunchOutcome::Aborted)));
}

#[test]
fn an_error_marker_wins_over_a_success_marker() {
    let mut monitor = Monitor::new(DaemonKind::Zainod);
    monitor.step(Event::Running);
    let action = monitor.step(Event::LogRead(b"Server Ready.\nError: lost peer\n".to_vec()));
    assert_eq!(action, Action::Finish);
    assert!(matches!(monitor.into_outcome(), Some(LaunchOutcome::Aborted)));
}

#[test]
fn a_marker_split_over_two_reads_is_found() {
    let mut monitor = Monitor::new(DaemonKind::Zainod);
    monitor.step(Event::Running);
    assert_eq!(monitor.step(Event::LogRead(b"booting\nServer Re".to_vec())), sleep_action());
    assert_eq!(monitor.step(Event::Slept), Action::Probe);
    assert_eq!(monitor.step(Event::Running), Action::ReadLog);
    assert_eq!(monitor.step(Event::LogRead(b"ady.\n".to_vec())), Action::Finish);
    assert!(matches!(monitor.into_outcome(), Some(LaunchOutcome::Ready)));
}

#[test]
fn each_daemon_has_its_own_success_marker() {
    assert_eq!(DaemonKind::Zcashd.success_marker(), b"init message: Done loading");
    assert_eq!(DaemonKind::Zainod.success_marker(), b"Server Ready.");
    assert_eq!(error_marker(), b"Error:");
    assert_eq!(classify(DaemonKind::Zcashd, b"Server Ready."), Readiness::Pending);
    assert_eq!(classify(DaemonKind::Zainod, b"init message: Done loading"), Readiness::Pending);
    assert_eq!(classify(DaemonKind::Zcashd, b"x init message: Done loading x"), Readiness::Ready);
    assert_eq!(classify(DaemonKind::Zainod, b"Server Ready."), Readiness::Ready);
    assert_eq!(classify(DaemonKind::Zainod, b"Server Ready"), Readiness::Pending);
    assert_eq!(classify(DaemonKind::Zainod, b"error: lower case"), Readiness::Pending);
    assert_eq!(classify(DaemonKind::Zainod, b"Error:"), Readiness::Aborted);
    assert_eq!(classify(DaemonKind::Zcashd, b""), Readiness::Pending);
}

#[test]
fn a_failed_probe_ends_the_launch() {
    let mut monitor = Monitor::new(DaemonKind::Zcashd);
    assert_eq!(monitor.step(Event::ProbeFailed), Action::Finish);
    assert!(matches!(monitor.into_outcome(), Some(LaunchOutcome::Unobservable)));
}

#[test]
fn an_event_that_answers_no_pending_action_is_ignored() {
    let mut monitor = Monitor::new(DaemonKind::Zcashd);
    assert_eq!(monitor.step(Event::Slept), Action::Probe);
    assert_eq!(
        monitor.step(Event::LogRead(b"init message: Done loading".to_vec())),
        Action::Probe
    );
    assert!(monitor.log().is_empty());
    assert_eq!(monitor.step(Event::Running), Action::ReadLog);
    assert_eq!(monitor.step(Event::Running), Action::ReadLog);
    assert_eq!(monitor.step(Event::Exited(ExitStatus::new(Some(3)))), Action::ReadLog);
    assert_eq!(
        monitor.step(Event::Collected { log: b"x".to_vec(), stderr: b"y".to_vec() }),
        Action::ReadLog
    );
    assert!(monitor.log().is_empty());
    assert!(!monitor.is_resolved());
}

#[test]
fn a_resolved_monitor_does_not_change() {
    let mut monitor = Monitor::new(DaemonKind::Zainod);
    monitor.step(Event::Running);
    assert_eq!(monitor.step(Event::LogRead(b"Server Ready.".to_vec())), Action::Finish);
    assert_eq!(monitor.step(Event::Running), Action::Finish);
    assert_eq!(monitor.step(Event::LogRead(b"Error:".to_vec())), Action::Finish);
    assert_eq!(monitor.step(Event::Exited(ExitStatus::new(Some(1)))), Action::Finish);
    assert_eq!(monitor.pending(), Action::Finish);
    assert_eq!(monitor.log(), &b"Server Ready.".to_vec());
    assert!(matches!(monitor.into_outcome(), Some(LaunchOutcome::Ready)));
}

#[test]
fn a_monitor_that_waits_has_no_outcome() {
    let mut monitor = Monitor::new(DaemonKind::Zcashd);
    monitor.step(Event::Running);
    monitor.step(Event::LogRead(b"nothing yet".to_vec()));
    assert_eq!(monitor.pending(), sleep_action());
    assert!(!monitor.is_resolved());
    assert!(monitor.into_outcome().is_none());
}
