use smolvm::runtime::container_id_from;
use smolvm::supervisor::{calculate_backoff, should_restart, RestartConfig, RestartPolicy};

#[test]
fn test_should_restart() {
    let cases = [
        (RestartPolicy::Never, 0, 0, false, None, false, "never policy"),
        (RestartPolicy::Always, 0, 5, false, None, true, "always policy"),
        (RestartPolicy::Always, 3, 3, false, None, false, "max retries reached"),
        (RestartPolicy::Always, 3, 2, false, None, true, "under max retries"),
        (RestartPolicy::OnFailure, 0, 0, false, Some(1), true, "on-failure with non-zero exit"),
        (RestartPolicy::OnFailure, 0, 0, false, Some(0), false, "on-failure with clean exit"),
        (RestartPolicy::OnFailure, 0, 0, false, None, true, "on-failure with unknown exit code"),
        (RestartPolicy::UnlessStopped, 0, 0, false, None, true, "unless-stopped running"),
        (RestartPolicy::UnlessStopped, 0, 0, true, None, false, "unless-stopped user stopped"),
    ];

    for (policy, max_retries, restart_count, user_stopped, last_exit_code, expected, desc) in cases {
        let config = RestartConfig { policy, max_retries, restart_count, user_stopped };
        assert_eq!(should_restart(&config, last_exit_code), expected, "{}", desc);
    }
}

#[test]
fn test_calculate_backoff() {
    assert_eq!(calculate_backoff(0), 1);
    assert_eq!(calculate_backoff(1), 2);
    assert_eq!(calculate_backoff(2), 4);
    assert_eq!(calculate_backoff(3), 8);
    assert_eq!(calculate_backoff(8), 256);
    assert_eq!(calculate_backoff(9), 256);
    assert_eq!(calculate_backoff(10), 256);
    assert_eq!(calculate_backoff(100), 256);
}

#[test]
fn container_id_format() {
    let id = container_id_from(0x1234abcd, 0xff);
    assert_eq!(id, "smolvm-1234abcd000000ff");
    assert_eq!(id.len(), 23);
    assert_eq!(container_id_from(0, 0), "smolvm-0000000000000000");
}
