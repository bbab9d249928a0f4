use smolvm::runtime::{capture_output, run_spec, runtime_run_args, MAX_CAPTURE_BYTES};
use smolvm::storage::{record_store_path, vm_dir};

#[test]
fn runtime_args_disable_cgroup_manager() {
    assert_eq!(
        runtime_run_args("/storage/overlays/w1/bundle", "smolvm-1"),
        vec!["--cgroup-manager=disabled", "run", "--bundle", "/storage/overlays/w1/bundle", "smolvm-1"]
    );
}

#[test]
fn capture_is_bounded() {
    let (kept, cut) = capture_output(b"hello\n", MAX_CAPTURE_BYTES);
    assert_eq!(kept, b"hello\n".to_vec());
    assert!(!cut);
    let (kept, cut) = capture_output(b"abcdef", 4);
    assert_eq!(kept, b"abcd".to_vec());
    assert!(cut);
}

#[test]
fn run_spec_binds_virtiofs_mounts() {
    let spec = run_spec(
        &["/bin/echo".to_string(), "hello".to_string()],
        &[],
        &None,
        &[("tag0".to_string(), "/data".to_string(), true)],
    );
    assert_eq!(spec.process.cwd, "/");
    assert_eq!(spec.mounts.len(), 8);
    assert_eq!(spec.process.env.len(), 3);
    assert_eq!(spec.process.args, vec!["/bin/echo", "hello"]);
    let m = spec.mounts.last().unwrap();
    assert_eq!(m.mount_type.as_deref(), Some("bind"));
    assert_eq!(m.source, "/mnt/virtiofs/tag0");
    assert_eq!(m.destination, "/data");
    assert_eq!(m.options, vec!["bind", "rprivate", "ro"]);
    let spec = run_spec(&["sh".to_string()], &[], &Some("/app".to_string()), &[]);
    assert_eq!(spec.process.cwd, "/app");
    assert_eq!(spec.mounts.len(), 7);
}

#[test]
fn host_vm_paths() {
    assert_eq!(vm_dir("/data", &None), "/data/smolvm/");
    assert_eq!(vm_dir("/data", &Some("dev".to_string())), "/data/smolvm/vms/dev/");
    assert_eq!(record_store_path("/data"), "/data/smolvm/server/smolvm.json");
}
