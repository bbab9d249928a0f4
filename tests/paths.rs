use smolvm::layers::overlay_lowerdir;
use smolvm::paths::{
    bundle_dir, conmon_pidfile_path, container_exit_path, container_log_path,
    container_pidfile_path, container_run_dir, layer_dir, merged_rootfs_path, overlay_dir,
    upper_dir, work_dir,
};
use std::path::PathBuf;

#[test]
fn test_container_paths() {
    let id = "abc123";
    assert_eq!(
        PathBuf::from(container_run_dir(id)),
        PathBuf::from("/storage/containers/run/abc123")
    );
    assert_eq!(
        PathBuf::from(container_log_path(id)),
        PathBuf::from("/storage/containers/logs/abc123.log")
    );
    assert_eq!(
        PathBuf::from(container_exit_path(id)),
        PathBuf::from("/storage/containers/exit/abc123")
    );
    assert_eq!(
        PathBuf::from(container_pidfile_path(id)),
        PathBuf::from("/storage/containers/run/abc123/pidfile")
    );
    assert_eq!(
        PathBuf::from(conmon_pidfile_path(id)),
        PathBuf::from("/storage/containers/run/abc123/conmon.pid")
    );
}

#[test]
fn test_overlay_paths() {
    let wl = "workload-123";
    assert_eq!(
        PathBuf::from(overlay_dir(wl)),
        PathBuf::from("/storage/overlays/workload-123")
    );
    assert_eq!(
        PathBuf::from(bundle_dir(wl)),
        PathBuf::from("/storage/overlays/workload-123/bundle")
    );
    assert_eq!(
        PathBuf::from(merged_rootfs_path(wl)),
        PathBuf::from("/storage/overlays/workload-123/merged")
    );
}

#[test]
fn overlay_peer_directories() {
    assert_eq!(upper_dir("w"), "/storage/overlays/w/upper");
    assert_eq!(work_dir("w"), "/storage/overlays/w/work");
    assert_eq!(layer_dir("sha256:ab"), "/storage/layers/sha256:ab");
}

#[test]
fn lowerdir_puts_base_layer_last() {
    let layers = vec!["base".to_string(), "mid".to_string(), "top".to_string()];
    assert_eq!(
        overlay_lowerdir(&layers),
        "/storage/layers/top:/storage/layers/mid:/storage/layers/base"
    );
    assert_eq!(overlay_lowerdir(&vec!["one".to_string()]), "/storage/layers/one");
    assert_eq!(overlay_lowerdir(&Vec::new()), "");
}
