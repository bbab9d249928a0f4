use smolvm::oci::{validate_env_vars, validate_image_reference, OciSpec};

#[test]
fn test_validate_image_reference_valid() {
    assert!(validate_image_reference("alpine").is_ok());
    assert!(validate_image_reference("alpine:latest").is_ok());
    assert!(validate_image_reference("alpine:3.18").is_ok());
    assert!(validate_image_reference("library/alpine").is_ok());
    assert!(validate_image_reference("docker.io/library/alpine").is_ok());
    assert!(validate_image_reference("ghcr.io/owner/repo:tag").is_ok());
    assert!(validate_image_reference("my-registry.com/my-image:v1.0.0").is_ok());
    assert!(validate_image_reference("alpine@sha256:abc123def456").is_ok());
}

#[test]
fn test_validate_image_reference_invalid() {
    assert!(validate_image_reference("").is_err());

    assert!(validate_image_reference("alpine; rm -rf /").is_err());
    assert!(validate_image_reference("alpine | cat /etc/passwd").is_err());
    assert!(validate_image_reference("alpine`whoami`").is_err());
    assert!(validate_image_reference("alpine$PATH").is_err());
    assert!(validate_image_reference("alpine > /tmp/x").is_err());
    assert!(validate_image_reference("alpine\nmalicious").is_err());

    assert!(validate_image_reference("alpine image").is_err());
    assert!(validate_image_reference("alpine!").is_err());

    assert!(validate_image_reference("/alpine").is_err());
    assert!(validate_image_reference("alpine:").is_err());
    assert!(validate_image_reference("-alpine").is_err());
}

#[test]
fn test_validate_image_reference_length() {
    let long_ref = "a".repeat(600);
    assert!(validate_image_reference(&long_ref).is_err());

    let ok_ref = "a".repeat(500);
    assert!(validate_image_reference(&ok_ref).is_ok());
}

#[test]
fn image_reference_length_boundary() {
    assert!(validate_image_reference(&"a".repeat(512)).is_ok());
    assert!(validate_image_reference(&"a".repeat(513)).is_err());
}

#[test]
fn image_reference_path_traversal_rejected() {
    assert!(validate_image_reference("registry/../etc").is_err());
    assert!(validate_image_reference("alpine..3").is_ok());
}

#[test]
fn test_oci_spec_creation() {
    let spec = OciSpec::new(
        &["echo".to_string(), "hello".to_string()],
        &[("FOO".to_string(), "bar".to_string())],
        "/",
        false,
    );

    assert_eq!(spec.oci_version, "1.0.2");
    assert_eq!(spec.process.args, vec!["echo", "hello"]);
    assert!(spec.process.env.contains(&"FOO=bar".to_string()));
    assert!(!spec.process.terminal);
}

#[test]
fn oci_spec_defaults() {
    let spec = OciSpec::new(&["sh".to_string()], &[("A".to_string(), "1".to_string())], "/work", true);
    assert_eq!(
        spec.process.env,
        vec![
            "PATH=/usr/local/sbin:/usr/local/bin:/usr/sbin:/usr/bin:/sbin:/bin",
            "HOME=/root",
            "TERM=xterm-256color",
            "A=1",
        ]
    );
    assert_eq!(spec.process.cwd, "/work");
    assert!(spec.process.terminal);
    let caps = spec.process.capabilities.as_ref().unwrap();
    assert_eq!(caps.bounding.len(), 14);
    assert_eq!(caps.bounding[0], "CAP_CHOWN");
    assert_eq!(caps.bounding[13], "CAP_AUDIT_WRITE");
    assert!(caps.inheritable.is_empty());
    assert!(caps.ambient.is_empty());
    let rl = spec.process.rlimits.as_ref().unwrap();
    assert_eq!(rl[0].rlimit_type, "RLIMIT_NOFILE");
    assert_eq!((rl[0].soft, rl[0].hard), (1024, 1024));
    let ns: Vec<&str> = spec.linux.namespaces.iter().map(|n| n.ns_type.as_str()).collect();
    assert_eq!(ns, vec!["pid", "mount", "ipc", "uts"]);
    assert_eq!(spec.linux.devices.len(), 6);
    assert_eq!(spec.linux.devices[5].path, "/dev/tty");
    assert_eq!((spec.linux.devices[5].major, spec.linux.devices[5].minor), (5, 0));
    assert_eq!(spec.linux.devices[0].file_mode, Some(0o666));
    assert!(spec.linux.masked_paths.contains(&"/proc/kcore".to_string()));
    assert_eq!(spec.linux.readonly_paths.len(), 5);
    assert_eq!(spec.mounts.len(), 7);
    assert_eq!(spec.mounts[6].destination, "/sys/fs/cgroup");
    assert_eq!(spec.mounts[6].mount_type.as_deref(), Some("cgroup2"));
    assert_eq!(spec.hostname.as_deref(), Some("container"));
    assert_eq!(spec.root.path, "rootfs");
}

#[test]
fn test_add_bind_mount() {
    let mut spec = OciSpec::new(&["sh".to_string()], &[], "/", false);
    spec.add_bind_mount("/host/path", "/container/path", true);

    let mount = spec.mounts.last().unwrap();
    assert_eq!(mount.destination, "/container/path");
    assert_eq!(mount.source, "/host/path");
    assert!(mount.options.contains(&"ro".to_string()));
}

#[test]
fn bind_mount_writable_options() {
    let mut spec = OciSpec::new(&["sh".to_string()], &[], "/", false);
    spec.add_bind_mount("/a", "/b", false);
    assert_eq!(spec.mounts.len(), 8);
    assert_eq!(spec.mounts[7].options, vec!["bind", "rprivate"]);
}

#[test]
fn test_validate_env_vars_valid() {
    assert!(validate_env_vars(&[]).is_ok());
    assert!(validate_env_vars(&[("FOO".to_string(), "bar".to_string())]).is_ok());
    assert!(validate_env_vars(&[("_FOO".to_string(), "bar".to_string())]).is_ok());
    assert!(validate_env_vars(&[("FOO_BAR".to_string(), "baz".to_string())]).is_ok());
    assert!(validate_env_vars(&[("FOO123".to_string(), "value".to_string())]).is_ok());
    assert!(validate_env_vars(&[("PATH".to_string(), "/usr/bin:/bin".to_string())]).is_ok());
    assert!(validate_env_vars(&[("EMPTY".to_string(), "".to_string())]).is_ok());
}

#[test]
fn test_validate_env_vars_invalid_keys() {
    assert!(validate_env_vars(&[("".to_string(), "value".to_string())]).is_err());
    assert!(validate_env_vars(&[("1FOO".to_string(), "value".to_string())]).is_err());
    assert!(validate_env_vars(&[("FOO-BAR".to_string(), "value".to_string())]).is_err());
    assert!(validate_env_vars(&[("FOO.BAR".to_string(), "value".to_string())]).is_err());
    assert!(validate_env_vars(&[("FOO BAR".to_string(), "value".to_string())]).is_err());
    assert!(validate_env_vars(&[("FOO=BAR".to_string(), "value".to_string())]).is_err());
}

#[test]
fn test_validate_env_vars_length_limits() {
    let long_key = "A".repeat(300);
    assert!(validate_env_vars(&[(long_key, "value".to_string())]).is_err());

    let long_value = "x".repeat(33 * 1024);
    assert!(validate_env_vars(&[("KEY".to_string(), long_value)]).is_err());

    let ok_value = "x".repeat(32 * 1024);
    assert!(validate_env_vars(&[("KEY".to_string(), ok_value)]).is_ok());
}

#[test]
fn env_key_length_boundary() {
    assert!(validate_env_vars(&[("A".repeat(256), "v".to_string())]).is_ok());
    assert!(validate_env_vars(&[("A".repeat(257), "v".to_string())]).is_err());
}
