use syncthing_watchdog::process_watchdog::{
    does_process_exist_and_match_cond, fold_termination_result, probe_says_alive, process_is_gamescope,
    process_is_syncthing, stop_begin, stop_step, MatchKind, ProcessRecord, ProcessWatchdog,
    SignalOutcome, StopAction, StopPhase, SyncthingState,
};

fn record(pid: u32, alive: bool, cmd: &[&str]) -> ProcessRecord {
    ProcessRecord {
        pid,
        alive,
        cmd: cmd.iter().map(|s| s.to_string()).collect(),
    }
}

fn syncthing(pid: u32) -> ProcessRecord {
    record(pid, true, &["syncthing", "--no-browser"])
}

#[test]
fn supervisor_state_wire_spelling() {
    assert_eq!(SyncthingState::Running.as_static_str(), "running");
    assert_eq!(SyncthingState::Stopped.as_static_str(), "stopped");
    assert_eq!(SyncthingState::Failed.as_static_str(), "failed");
}

#[test]
fn daemon_matched_by_first_command_word() {
    assert!(process_is_syncthing(&syncthing(7)));
    assert!(!process_is_syncthing(&record(7, true, &["bash", "syncthing"])));
    assert!(!process_is_syncthing(&record(7, true, &[])));
}

#[test]
fn companion_matched_anywhere_on_command_line() {
    assert!(process_is_gamescope(&record(3, true, &["sh", "/usr/bin/gamescope-session"])));
    assert!(process_is_gamescope(&record(3, true, &["/usr/bin/gamescope-session"])));
    assert!(!process_is_gamescope(&record(3, true, &["gamescope"])));
}

#[test]
fn pid_lookup_requires_liveness_and_match() {
    let snap = vec![record(5, false, &["syncthing"]), syncthing(9)];
    assert!(!does_process_exist_and_match_cond(&snap, 5, MatchKind::Syncthing));
    assert!(does_process_exist_and_match_cond(&snap, 9, MatchKind::Syncthing));
    assert!(!does_process_exist_and_match_cond(&snap, 9, MatchKind::Gamescope));
}

#[test]
fn status_rediscovers_daemon_under_new_pid() {
    // The stored identifier points at a dead process, but a process
    // matching the daemon's command line lives elsewhere in the table:
    // the state is still Running.
    let mut w = ProcessWatchdog::new();
    w.syncthing_pid = Some(5);
    w.syncthing_should_be_running = true;
    let snap = vec![record(5, false, &["syncthing"]), record(11, true, &["other"]), syncthing(42)];
    assert_eq!(w.syncthing_status(&snap), SyncthingState::Running);
    assert_eq!(w.syncthing_pid, Some(42));
}

#[test]
fn status_without_any_match() {
    let mut w = ProcessWatchdog::new();
    let empty: Vec<ProcessRecord> = vec![];
    assert_eq!(w.syncthing_status(&empty), SyncthingState::Stopped);
    w.syncthing_should_be_running = true;
    assert_eq!(w.syncthing_status(&empty), SyncthingState::Failed);
}

#[test]
fn start_on_running_daemon_is_a_no_op() {
    let mut w = ProcessWatchdog::new();
    let snap = vec![syncthing(42)];
    let launch = w.syncthing_start_prepare(&snap, 1_000);
    assert!(!launch);
    assert_eq!(w.wait_deadline_ms, None);
    assert_eq!(w.syncthing_state(&snap), SyncthingState::Running);
}

#[test]
fn start_on_absent_daemon_arms_grace_deadline() {
    let mut w = ProcessWatchdog::new();
    let before: Vec<ProcessRecord> = vec![];
    let launch = w.syncthing_start_prepare(&before, 1_000);
    assert!(launch);
    assert_eq!(w.wait_deadline_ms, Some(16_000));

    let after = vec![syncthing(42)];
    assert!(w.syncthing_start_commit(&after).is_ok());
    assert!(w.syncthing_should_be_running);
    assert_eq!(w.syncthing_pid, Some(42));
}

#[test]
fn start_commit_reports_launch_failure() {
    let mut w = ProcessWatchdog::new();
    let after: Vec<ProcessRecord> = vec![record(13, true, &["bwrap"])];
    assert!(w.syncthing_start_commit(&after).is_err());
    assert!(w.syncthing_should_be_running);
}

#[test]
fn stop_on_stopped_daemon_is_a_no_op() {
    let mut w = ProcessWatchdog::new();
    let snap: Vec<ProcessRecord> = vec![];
    assert_eq!(w.syncthing_stop_prepare(&snap), None);
    assert!(!w.syncthing_should_be_running);
}

#[test]
fn stop_targets_the_running_daemon() {
    let mut w = ProcessWatchdog::new();
    let snap = vec![syncthing(42)];
    assert_eq!(w.syncthing_stop_prepare(&snap), Some(42));
    let gone: Vec<ProcessRecord> = vec![];
    w.syncthing_stop_finish(&gone);
    assert!(!w.syncthing_should_be_running);
}

#[test]
fn graceful_stop_ends_on_first_gone_probe() {
    let phase = stop_begin();
    let (phase, action) = stop_step(phase, false);
    assert_eq!(phase, StopPhase::Done { forced: false });
    assert_eq!(action, StopAction::Finish);
}

#[test]
fn stubborn_process_is_stopped_within_the_budget() {
    // A process that ignores graceful termination: every probe says
    // alive. The loop escalates to the forced signal after the graceful
    // budget and is over within the measure, sleeping at most 150 poll
    // intervals (7.5 s) on the way.
    let mut phase = stop_begin();
    let mut steps = 0u32;
    let mut waits = 0u32;
    let mut kills = 0u32;
    loop {
        let (next, action) = stop_step(phase, true);
        phase = next;
        steps += 1;
        match action {
            StopAction::Wait => waits += 1,
            StopAction::Kill => kills += 1,
            StopAction::Probe => {}
            StopAction::Finish => break,
        }
        assert!(steps <= 302, "stop loop exceeded its measure");
    }
    assert_eq!(phase, StopPhase::Done { forced: true });
    assert_eq!(waits, 150);
    assert_eq!(kills, 1);
    assert!(steps <= 302);
}

#[test]
fn forced_stop_ends_when_process_disappears() {
    let mut phase = stop_begin();
    // Exhaust the graceful budget.
    for _ in 0..150 {
        let (next, action) = stop_step(phase, true);
        assert_eq!(action, StopAction::Wait);
        phase = next;
    }
    let (next, action) = stop_step(phase, true);
    assert_eq!(action, StopAction::Kill);
    phase = next;
    let (phase, action) = stop_step(phase, false);
    assert_eq!(phase, StopPhase::Done { forced: true });
    assert_eq!(action, StopAction::Finish);
}

#[test]
fn no_such_process_is_benign() {
    assert!(fold_termination_result(SignalOutcome::Delivered).is_ok());
    assert!(fold_termination_result(SignalOutcome::NoSuchProcess).is_ok());
    assert_eq!(fold_termination_result(SignalOutcome::Error(13)), Err(13));
}

#[test]
fn only_no_such_process_ends_a_liveness_poll() {
    assert!(probe_says_alive(SignalOutcome::Delivered));
    assert!(probe_says_alive(SignalOutcome::Error(13)));
    assert!(!probe_says_alive(SignalOutcome::NoSuchProcess));
}

#[test]
fn wait_for_start_respects_deadline_and_request_flag() {
    let mut w = ProcessWatchdog::new();
    assert!(!w.should_wait_for_start(0));
    w.syncthing_should_be_running = true;
    w.wait_deadline_ms = Some(16_000);
    assert!(w.should_wait_for_start(15_999));
    assert!(!w.should_wait_for_start(16_000));
    w.syncthing_should_be_running = false;
    assert!(!w.should_wait_for_start(15_999));
}
