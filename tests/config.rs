use smolvm::config::{empty_db, RecordState, SmolvmConfig, VmRecord};
use smolvm::process::ProcessIdentity;

#[test]
fn test_record_state_display() {
    assert_eq!(RecordState::Created.to_string(), "created");
    assert_eq!(RecordState::Running.to_string(), "running");
    assert_eq!(RecordState::Stopped.to_string(), "stopped");
    assert_eq!(RecordState::Failed.to_string(), "failed");
}

fn record(name: &str) -> VmRecord {
    VmRecord::new(
        name.to_string(),
        2,
        512,
        vec![("/host".to_string(), "/guest".to_string(), false)],
        vec![(8080, 80)],
    )
}

#[test]
fn insert_update_then_fresh_handle_reads_update() {
    let mut config = SmolvmConfig::load(empty_db());
    config.insert_vm("test".to_string(), record("test")).unwrap();
    let updated = config.update_vm("test", |mut r| {
        r.mark_running(ProcessIdentity { pid: 4242, start_time: 99 });
        r.mem = 1024;
        r
    });
    assert_eq!(updated, Some(()));
    let fresh = SmolvmConfig::load(config.into_db());
    let got = fresh.get_vm("test").unwrap();
    assert_eq!(got.state, RecordState::Running);
    assert_eq!(got.pid, Some(4242));
    assert_eq!(got.start_time, Some(99));
    assert_eq!(got.mem, 1024);
    assert_eq!(got.mounts, vec![("/host".to_string(), "/guest".to_string(), false)]);
}

#[test]
fn insert_twice_fails_and_remove_returns_record() {
    let mut config = SmolvmConfig::load(empty_db());
    assert!(config.insert_vm("a".to_string(), record("a")).is_ok());
    assert!(config.insert_vm("a".to_string(), record("a")).is_err());
    assert!(config.update_vm("missing", |r| r).is_none());
    assert_eq!(config.remove_vm("a").map(|r| r.name), Some("a".to_string()));
    assert!(config.get_vm("a").is_none());
    assert!(config.remove_vm("a").is_none());
}

#[test]
fn load_defaults_and_save() {
    let mut config = SmolvmConfig::load(empty_db());
    assert_eq!(config.version(), 1);
    assert_eq!(config.default_cpus(), 1);
    assert_eq!(config.default_mem(), 512);
    assert_eq!(config.default_dns(), "1.1.1.1");
    config.set_defaults(4, 2048, "9.9.9.9".to_string());
    config.save();
    let fresh = SmolvmConfig::load(config.into_db());
    assert_eq!(fresh.default_cpus(), 4);
    assert_eq!(fresh.default_mem(), 2048);
    assert_eq!(fresh.default_dns(), "9.9.9.9");
}

#[test]
fn actual_state_reconciles_liveness() {
    let mut r = record("x");
    assert_eq!(r.actual_state(true, Some(5)), RecordState::Created);
    r.mark_running(ProcessIdentity { pid: 10, start_time: 5 });
    assert_eq!(r.actual_state(true, Some(5)), RecordState::Running);
    assert!(r.is_process_alive(true, Some(5)));
    // The pid was reused by a process that started later.
    assert!(!r.is_process_alive(true, Some(6)));
    assert_eq!(r.actual_state(true, Some(6)), RecordState::Failed);
    assert_eq!(r.actual_state(false, None), RecordState::Failed);
    r.mark_exited(true);
    assert_eq!(r.state, RecordState::Failed);
    assert_eq!(r.pid, None);
    assert_eq!(r.start_time, None);
    assert!(!r.is_process_alive(true, Some(5)));
    assert!(r.created_at.chars().all(|c| c.is_ascii_digit()));
}
