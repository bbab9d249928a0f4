use smolvm::validation::{validate_command, validate_resource_name};

#[test]
fn test_validate_resource_name() {
    for kind in ["sandbox", "microvm"] {
        let max_len = 40;

        let valid = [
            "test",
            "my-resource",
            "my_resource",
            "test123",
            "123test",
            "a",
            "test-resource-123",
            "TEST_RESOURCE",
        ];
        for name in valid {
            assert!(
                validate_resource_name(name, kind, max_len).is_ok(),
                "expected '{}' to be valid for {}",
                name,
                kind
            );
        }

        assert!(validate_resource_name(&"a".repeat(40), kind, max_len).is_ok());
        assert!(validate_resource_name(&"a".repeat(41), kind, max_len).is_err());

        let invalid = [
            ("", "empty"),
            ("-test", "starts with hyphen"),
            ("_test", "starts with underscore"),
            (".test", "starts with dot"),
            ("test-", "ends with hyphen"),
            ("test--name", "consecutive hyphens"),
            ("test/name", "forward slash"),
            ("test\\name", "backslash"),
            ("test name", "space"),
            ("test@name", "at sign"),
            ("../test", "path traversal"),
            ("test.name", "dot"),
            ("test:name", "colon"),
            ("test#name", "hash"),
        ];
        for (name, desc) in invalid {
            assert!(
                validate_resource_name(name, kind, max_len).is_err(),
                "expected '{}' ({}) to be invalid for {}",
                name,
                desc,
                kind
            );
        }
    }
}

#[test]
fn test_validate_command() {
    assert!(validate_command(&[]).is_err());
    assert!(validate_command(&["echo".to_string()]).is_ok());
    assert!(validate_command(&["echo".to_string(), "hello".to_string()]).is_ok());
}
