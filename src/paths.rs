//! Paths used by the guest agent under the storage disk's mount point.

use vstd::prelude::*;

verus! {

/// Mount point of the storage disk.
pub const STORAGE_ROOT: &'static str = "/storage";

/// Extracted layers, one directory per digest.
pub const LAYERS_DIR: &'static str = "/storage/layers";

/// Cached image manifests.
pub const MANIFESTS_DIR: &'static str = "/storage/manifests";

/// Cached image configs.
pub const CONFIGS_DIR: &'static str = "/storage/configs";

/// Per-workload overlay trees.
pub const OVERLAYS_DIR: &'static str = "/storage/overlays";

/// Layer directories on their way to removal.
pub const TRASH_DIR: &'static str = "/storage/trash";

/// Per-container runtime state.
pub const CONTAINERS_RUN_DIR: &'static str = "/storage/containers/run";

/// Container logs.
pub const CONTAINERS_LOGS_DIR: &'static str = "/storage/containers/logs";

/// Container exit-code files.
pub const CONTAINERS_EXIT_DIR: &'static str = "/storage/containers/exit";

/// Persistent container registry.
pub const REGISTRY_PATH: &'static str = "/storage/containers/registry.json";

/// The OCI runtime binary.
pub const CRUN_PATH: &'static str = "/usr/bin/crun";

/// The OCI image tool.
pub const CRANE_PATH: &'static str = "/usr/local/bin/crane";

/// The OCI runtime's cgroup manager: cgroup2 is mounted read-only in the guest.
pub const CRUN_CGROUP_MANAGER: &'static str = "disabled";

/// Where virtiofs shares are mounted.
pub const VIRTIOFS_MOUNT_ROOT: &'static str = "/mnt/virtiofs";

/// Runtime directory of a container.
pub fn container_run_dir(container_id: &str) -> (r: String)
    ensures
        r@ == "/storage/containers/run/"@ + container_id@,
{
    "/storage/containers/run/".to_string().concat(container_id)
}

/// Log file of a container.
pub fn container_log_path(container_id: &str) -> (r: String)
    ensures
        r@ == "/storage/containers/logs/"@ + container_id@ + ".log"@,
{
    "/storage/containers/logs/".to_string().concat(container_id).concat(".log")
}

/// Exit-code file of a container.
pub fn container_exit_path(container_id: &str) -> (r: String)
    ensures
        r@ == "/storage/containers/exit/"@ + container_id@,
{
    "/storage/containers/exit/".to_string().concat(container_id)
}

/// Pidfile written by the OCI runtime for a container.
pub fn container_pidfile_path(container_id: &str) -> (r: String)
    ensures
        r@ == "/storage/containers/run/"@ + container_id@ + "/pidfile"@,
{
    "/storage/containers/run/".to_string().concat(container_id).concat("/pidfile")
}

/// Pidfile of a container's monitor.
pub fn conmon_pidfile_path(container_id: &str) -> (r: String)
    ensures
        r@ == "/storage/containers/run/"@ + container_id@ + "/conmon.pid"@,
{
    "/storage/containers/run/".to_string().concat(container_id).concat("/conmon.pid")
}

/// Attach socket of a container.
pub fn attach_socket_path(container_id: &str) -> (r: String)
    ensures
        r@ == "/storage/containers/run/"@ + container_id@ + "/attach"@,
{
    "/storage/containers/run/".to_string().concat(container_id).concat("/attach")
}

/// Root of a workload's overlay tree.
pub fn overlay_dir(workload_id: &str) -> (r: String)
    ensures
        r@ == "/storage/overlays/"@ + workload_id@,
{
    "/storage/overlays/".to_string().concat(workload_id)
}

/// OCI bundle directory of a workload.
pub fn bundle_dir(workload_id: &str) -> (r: String)
    ensures
        r@ == "/storage/overlays/"@ + workload_id@ + "/bundle"@,
{
    "/storage/overlays/".to_string().concat(workload_id).concat("/bundle")
}

/// Merged overlay mount point of a workload.
pub fn merged_rootfs_path(workload_id: &str) -> (r: String)
    ensures
        r@ == "/storage/overlays/"@ + workload_id@ + "/merged"@,
{
    "/storage/overlays/".to_string().concat(workload_id).concat("/merged")
}

/// Writable upper directory of a workload.
pub fn upper_dir(workload_id: &str) -> (r: String)
    ensures
        r@ == "/storage/overlays/"@ + workload_id@ + "/upper"@,
{
    "/storage/overlays/".to_string().concat(workload_id).concat("/upper")
}

/// Overlay work directory of a workload.
pub fn work_dir(workload_id: &str) -> (r: String)
    ensures
        r@ == "/storage/overlays/"@ + workload_id@ + "/work"@,
{
    "/storage/overlays/".to_string().concat(workload_id).concat("/work")
}

/// Directory of an extracted layer.
pub fn layer_dir(digest: &str) -> (r: String)
    ensures
        r@ == "/storage/layers/"@ + digest@,
{
    "/storage/layers/".to_string().concat(digest)
}

/// Mount point of a virtiofs share.
pub fn virtiofs_mount_path(tag: &str) -> (r: String)
    ensures
        r@ == "/mnt/virtiofs/"@ + tag@,
{
    "/mnt/virtiofs/".to_string().concat(tag)
}

} // verus!
