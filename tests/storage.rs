use smolvm::storage::{
    disk_marker_path, disk_needs_format, storage_path_from, disk_size_bytes, probe_says_ext, DiskVersion, FormatPlan,
    OverlayDisk, StorageDisk, StorageError, GIB,
};

#[test]
fn test_disk_version_compatibility() {
    let version = DiskVersion::new("sha256:abc123");
    assert!(version.is_compatible());

    let future_version = DiskVersion {
        format_version: 999,
        created_at: "0".to_string(),
        base_digest: "sha256:abc123".to_string(),
        smolvm_version: "99.0.0".to_string(),
    };
    assert!(!future_version.is_compatible());
}

#[test]
fn sizes_and_zero_rejected() {
    assert_eq!(disk_size_bytes(0), Err(StorageError::ZeroSize));
    assert_eq!(disk_size_bytes(1), Ok(GIB));
    assert_eq!(disk_size_bytes(20), Ok(20 * GIB));
    assert_eq!(disk_size_bytes(u64::MAX / GIB + 1), Err(StorageError::TooLarge));
    assert!(OverlayDisk::open_or_create_at("/tmp/zero_overlay.raw", 0, None).is_err());
    let (disk, create) = StorageDisk::open_or_create_at("/d/storage.raw", 1, None).unwrap();
    assert!(create);
    assert_eq!(disk.size_gb(), 1);
    assert_eq!(disk.path(), "/d/storage.raw");
    let (disk, create) = StorageDisk::open_or_create_at("/d/storage.raw", 1, Some(5 * GIB)).unwrap();
    assert!(!create);
    assert_eq!(disk.size_bytes(), 5 * GIB);
    assert_eq!(disk.marker_path(), "/d/storage.raw.formatted");
}

#[test]
fn format_checks() {
    assert_eq!(disk_marker_path("/x/storage.raw"), "/x/storage.raw.formatted");
    let c = disk_needs_format(false, true, true);
    assert!(c.needs_format && !c.remove_marker && !c.remove_disk);
    let c = disk_needs_format(true, false, true);
    assert!(c.needs_format && c.remove_marker && !c.remove_disk);
    let c = disk_needs_format(true, true, false);
    assert!(c.needs_format && c.remove_marker && c.remove_disk);
    let c = disk_needs_format(true, true, true);
    assert!(!c.needs_format);
    assert!(probe_says_ext(Some("Linux rev 1.0 ext4 filesystem data")));
    assert!(probe_says_ext(Some("Linux rev 1.0 ext2 filesystem data")));
    assert!(!probe_says_ext(Some("data")));
    assert!(probe_says_ext(None));
}

#[test]
fn format_plans() {
    let (disk, _) = StorageDisk::open_or_create_at("/d/storage.raw", 1, None).unwrap();
    assert!(matches!(disk.ensure_formatted(false, None), FormatPlan::AlreadyFormatted));
    match disk.ensure_formatted(true, None) {
        FormatPlan::Mkfs(label) => assert_eq!(label, "smolvm"),
        _ => panic!("expected mkfs"),
    }
    match disk.ensure_formatted(true, Some("/t.ext4".to_string())) {
        FormatPlan::CopyTemplate(t) => assert_eq!(t, "/t.ext4"),
        _ => panic!("expected template copy"),
    }
    let (overlay, _) = OverlayDisk::open_or_create_at("/d/overlay.raw", 2, None).unwrap();
    match overlay.ensure_formatted(true, None) {
        FormatPlan::Mkfs(label) => assert_eq!(label, "smolvm-overlay"),
        _ => panic!("expected mkfs"),
    }
}

#[test]
fn default_storage_path_choice() {
    assert_eq!(
        storage_path_from(Some("/l".to_string()), Some("/d".to_string())),
        Ok("/l/smolvm/storage.raw".to_string())
    );
    assert_eq!(storage_path_from(None, Some("/d".to_string())), Ok("/d/smolvm/storage.raw".to_string()));
    assert_eq!(storage_path_from(None, None), Err(StorageError::NoDataDir));
}
