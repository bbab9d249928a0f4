use smolvm::agent::PortMapping;
use smolvm::cli::{parse_env_spec, parse_mount_spec, parse_mounts_as_tuples, parse_port, parse_u16, truncate, vm_label};
use smolvm::util::{decimal_string, timestamp_text};

#[test]
fn env_specs() {
    assert_eq!(parse_env_spec("FOO=bar"), Some(("FOO".to_string(), "bar".to_string())));
    assert_eq!(parse_env_spec("A=b=c"), Some(("A".to_string(), "b=c".to_string())));
    assert_eq!(parse_env_spec("=x"), None);
    assert_eq!(parse_env_spec("novalue"), None);
}

#[test]
fn ports() {
    assert_eq!(parse_port("8080:80"), Ok(PortMapping::new(8080, 80)));
    assert_eq!(parse_port("443"), Ok(PortMapping::same(443)));
    assert!(parse_port("70000:80").is_err());
    assert!(parse_port("x:80").is_err());
    assert_eq!(parse_u16("+65535"), Some(65535));
    assert_eq!(parse_u16("65536"), None);
    assert_eq!(parse_u16(""), None);
    assert_eq!(parse_u16("+"), None);
}

#[test]
fn mounts() {
    assert_eq!(parse_mount_spec("/h:/g"), Ok(("/h".to_string(), "/g".to_string(), false)));
    assert_eq!(parse_mount_spec("/h:/g:ro"), Ok(("/h".to_string(), "/g".to_string(), true)));
    assert_eq!(parse_mount_spec("/h:/g:rw"), Ok(("/h".to_string(), "/g".to_string(), false)));
    assert!(parse_mount_spec("/h").is_err());
    let specs = vec!["/a:/b".to_string(), "/c:/d:ro".to_string()];
    assert_eq!(parse_mounts_as_tuples(&specs).unwrap().len(), 2);
    assert!(parse_mounts_as_tuples(&["bad".to_string()]).is_err());
}

#[test]
fn text_helpers() {
    assert_eq!(truncate("short", 10), "short");
    assert_eq!(truncate("abcdefghij", 6), "abc...");
    assert_eq!(truncate("ab", 2), "ab");
    assert_eq!(truncate("", 0), "");
    assert_eq!(vm_label(&None), "default");
    assert_eq!(vm_label(&Some("vm1".to_string())), "vm1");
    assert_eq!(decimal_string(0), "0");
    assert_eq!(decimal_string(1705312345), "1705312345");
    assert_eq!(timestamp_text(u64::MAX), u64::MAX.to_string());
}
