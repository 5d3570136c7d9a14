use clawops::gf_handlers::{parse_ps_lines, redact_config, restart_target, tailscale_status_reply};

#[test]
fn restart_target_defaults_and_validates() {
    assert_eq!(restart_target(None), Ok("openclaw".to_string()));
    assert_eq!(restart_target(Some("my-app_2")), Ok("my-app_2".to_string()));
    assert_eq!(
        restart_target(Some("x; rm -rf /")),
        Err("Invalid container name — alphanumeric, dash, underscore only".to_string())
    );
    assert!(restart_target(Some("a.b")).is_err());
    assert_eq!(restart_target(Some("")), Ok(String::new()));
}

#[test]
fn redact_config_hides_secret_keys_only() {
    let text = r#"{"token":"abc","name":"n1","nested":{"token":"x"},"password":12,"port":8080}"#;
    let r = redact_config(text);
    assert_eq!(
        r,
        r#"{"name":"n1","nested":{"token":"x"},"password":"[REDACTED]","port":8080,"token":"[REDACTED]"}"#
    );
    let v: serde_json::Value = serde_json::from_str(&r).unwrap();
    assert_eq!(v["api_key"], serde_json::Value::Null);
}

#[test]
fn redact_config_non_objects() {
    assert_eq!(redact_config("not json"), "{}");
    assert_eq!(redact_config("[1, 2]"), "[1,2]");
    assert_eq!(redact_config("{}"), "{}");
}

#[test]
fn parse_ps_lines_skips_non_json() {
    let out = "{\"Names\":\"a\"}\nwarning: x\n{\"Names\": \"b\"}\r\n\n";
    assert_eq!(parse_ps_lines(out), vec!["{\"Names\":\"a\"}".to_string(), "{\"Names\":\"b\"}".to_string()]);
    assert!(parse_ps_lines("").is_empty());
}

#[test]
fn tailscale_reply_cases() {
    assert_eq!(tailscale_status_reply(false, b"{}".to_vec()), "{\"connected\":false}");
    assert_eq!(tailscale_status_reply(true, b"{\"Self\": {\"Online\": true}}".to_vec()), "{\"Self\":{\"Online\":true}}");
    assert_eq!(tailscale_status_reply(true, b"garbage".to_vec()), "{\"connected\":true}");
    assert_eq!(tailscale_status_reply(true, vec![0xff, 0xfe]), "{\"connected\":true}");
}
