use smolvm::process::{
    exit_code_from_status, is_our_process_strict, parse_u64, reap_outcome, start_decision,
    start_time_from_stat, stop_begin, stop_step,
    ChildProcess, ProcessIdentity, ReapOutcome, StartDecision, StopAction,
};

#[test]
fn exit_codes_from_wait_status() {
    assert_eq!(exit_code_from_status(0), 0);
    assert_eq!(exit_code_from_status(3 << 8), 3);
    assert_eq!(exit_code_from_status(9), 137);
    assert_eq!(exit_code_from_status(15), 143);
    assert_eq!(exit_code_from_status(0x137f), -1);
}

#[test]
fn reap_outcomes() {
    assert_eq!(reap_outcome(42, 42, 1 << 8), ReapOutcome::Exited(1));
    assert_eq!(reap_outcome(42, 0, 0), ReapOutcome::StillRunning);
    assert_eq!(reap_outcome(42, -1, 0), ReapOutcome::NotOurChild);
}

#[test]
fn strict_identity_rejects_reused_pid() {
    let ours = ProcessIdentity { pid: 1234, start_time: 5000 };
    assert!(is_our_process_strict(true, Some(5000), ours));
    assert!(!is_our_process_strict(true, Some(9000), ours));
    assert!(!is_our_process_strict(false, Some(5000), ours));
    assert!(!is_our_process_strict(true, None, ours));
}

#[test]
fn start_requires_identity() {
    assert_eq!(
        start_decision(7, Some(11), true),
        StartDecision::Proceed(ProcessIdentity { pid: 7, start_time: 11 })
    );
    assert_eq!(start_decision(7, None, true), StartDecision::KillAndFail);
    assert_eq!(start_decision(7, None, false), StartDecision::Fail);
}

#[test]
fn stop_sequence() {
    assert_eq!(stop_step(ReapOutcome::Exited(0), true, 0, 100, true), StopAction::Finish(0));
    assert_eq!(stop_step(ReapOutcome::StillRunning, false, 0, 100, true), StopAction::Finish(0));
    assert_eq!(stop_step(ReapOutcome::StillRunning, true, 50, 100, true), StopAction::Poll);
    assert_eq!(stop_step(ReapOutcome::StillRunning, true, 100, 100, true), StopAction::Kill);
    assert_eq!(stop_step(ReapOutcome::StillRunning, true, 100, 100, false), StopAction::TimedOut);
    // The pid no longer names the recorded process: never signalled.
    assert_eq!(stop_step(ReapOutcome::StillRunning, false, 100, 100, true), StopAction::Finish(0));
    assert_eq!(stop_begin(ReapOutcome::StillRunning, true), StopAction::Terminate);
    assert_eq!(stop_begin(ReapOutcome::StillRunning, false), StopAction::Finish(0));
    assert_eq!(stop_begin(ReapOutcome::Exited(2), true), StopAction::Finish(2));
}

#[test]
fn start_time_from_proc_stat() {
    let stat = "1234 (my (odd) cmd) S 1 1234 1234 0 -1 4194560 100 0 0 0 1 2 0 0 20 0 1 0 987654 12345678 300";
    assert_eq!(start_time_from_stat(stat), Some(987654));
    assert_eq!(start_time_from_stat("1234 (cmd) S 1 2"), None);
    assert_eq!(start_time_from_stat("no paren"), None);
    assert_eq!(parse_u64("18446744073709551615"), Some(u64::MAX));
    assert_eq!(parse_u64("18446744073709551616"), None);
    assert_eq!(parse_u64("12a"), None);
    assert_eq!(parse_u64(""), None);
}

#[test]
fn child_process_keeps_first_exit() {
    let mut c = ChildProcess::new(9);
    assert_eq!(c.pid(), 9);
    assert!(c.is_running(ReapOutcome::StillRunning, true));
    assert!(!c.is_running(ReapOutcome::Exited(3), true));
    c.observe(ReapOutcome::Exited(5));
    assert_eq!(c.exit_code(), Some(3));
}
