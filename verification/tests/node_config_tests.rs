use clawops::gf_node::{
    build_heartbeat, command_result, next_backoff, openclaw_status, refused_result, CommandRequest, InstanceRole,
    NodeConfig, NodeSettings,
};
use clawops::gf_proto::{AgentIdentity, ServiceStatus};
use hmac::Mac;

fn defaults() -> NodeConfig {
    NodeConfig::from_settings(NodeSettings::default())
}

#[test]
fn node_config_load_empty_path_succeeds_with_defaults() {
    let cfg = defaults();
    assert!(!cfg.gateway_url.is_empty());
    assert!(!cfg.provider.is_empty());
    assert!(!cfg.region.is_empty());
    assert!(!cfg.tier.is_empty());
    assert!(cfg.heartbeat_interval_secs >= 1);
    assert!(cfg.metrics_interval_secs >= 1);
}

#[test]
fn allowed_command_prefixes_contains_vps_prefix() {
    let cfg = defaults();
    assert!(
        cfg.allowed_command_prefixes.iter().any(|p| p == "vps."),
        "allowed_command_prefixes should contain 'vps.' prefix"
    );
}

#[test]
fn config_with_empty_api_key_is_dev_mode() {
    let cfg = defaults();
    let _api_key: &str = &cfg.api_key;
    assert!(cfg.api_key.is_empty());
}

fn sign(key: &str, text: &str) -> String {
    let mut mac = hmac::Hmac::<sha2::Sha256>::new_from_slice(key.as_bytes()).unwrap();
    mac.update(text.as_bytes());
    hex::encode(mac.finalize().into_bytes())
}

fn request(command: &str, signature: String) -> CommandRequest {
    CommandRequest {
        request_id: "7d3c".to_string(),
        command: command.to_string(),
        args_json: "{\"n\":1}".to_string(),
        signature,
        issued_by: AgentIdentity::Guardian,
    }
}

#[test]
fn node_settings_parse_and_defaults() {
    let cfg = NodeConfig::from_settings(NodeSettings {
        instance_id: Some("i-1".to_string()),
        role: Some("standby".to_string()),
        heartbeat_interval_secs: Some("+15".to_string()),
        metrics_interval_secs: Some("sixty".to_string()),
        api_key: Some("k".to_string()),
        ..NodeSettings::default()
    });
    assert_eq!(cfg.instance_id, "i-1");
    assert_eq!(cfg.role, InstanceRole::Standby);
    assert_eq!(cfg.heartbeat_interval_secs, 15);
    assert_eq!(cfg.metrics_interval_secs, 60);
    assert_eq!(cfg.gateway_url, "ws://localhost:8443");
    assert_eq!(cfg.gf_api_base, "https://api.gatewayforge.io");
    assert_eq!(cfg.region, "eu-hetzner-nbg1");
    assert_eq!(defaults().instance_id.len(), 36);
}

#[test]
fn command_gate_checks_prefix_then_signature() {
    let mut cfg = defaults();
    cfg.api_key = "secret-key".to_string();
    let good = sign("secret-key", "7d3c:vps.status:{\"n\":1}");
    assert!(cfg.admit_command(&request("vps.status", good.clone())).is_ok());
    assert!(cfg.admit_command(&request("vps.status", good.to_uppercase())).is_ok());
    assert_eq!(cfg.admit_command(&request("rm.all", good.clone())), Err("Command not in allowlist".to_string()));
    assert_eq!(cfg.admit_command(&request("vps.reboot", good.clone())), Err("Invalid HMAC signature".to_string()));
    assert_eq!(cfg.admit_command(&request("vps.status", "zz".to_string())), Err("Invalid HMAC signature".to_string()));
    // Without a key every signature passes.
    assert!(defaults().verify_signature(&request("vps.status", String::new())));
    let r = command_result("7d3c".to_string(), "vps.nope".to_string(), None, 4);
    assert_eq!(r.error, Some("Unknown command: vps.nope".to_string()));
    assert!(!r.success);
    assert_eq!(r.output_json, "null");
    let ok = command_result("7d3c".to_string(), "vps.status".to_string(), Some("{}".to_string()), 9);
    assert!(ok.success && ok.error.is_none() && ok.duration_ms == 9);
    let refused = refused_result(request("rm.all", String::new()), "Command not in allowlist".to_string());
    assert_eq!(refused.duration_ms, 0);
    assert!(!refused.success);
}

#[test]
fn reconnect_backoff_doubles_to_a_minute_and_resets() {
    let mut b = 2u64;
    let mut seen = vec![];
    for _ in 0..6 {
        b = next_backoff(b, false);
        seen.push(b);
    }
    assert_eq!(seen, vec![4, 8, 16, 32, 60, 60]);
    assert_eq!(next_backoff(60, true), 2);
}

#[test]
fn heartbeat_reflects_the_checks() {
    assert_eq!(openclaw_status(Some(204)), ServiceStatus::Healthy);
    assert_eq!(openclaw_status(Some(503)), ServiceStatus::Degraded);
    assert_eq!(openclaw_status(None), ServiceStatus::Down);
    let h = build_heartbeat(Some(200), true, false, 3600);
    assert_eq!(h.health_score, 90);
    assert_eq!(h.openclaw_status, ServiceStatus::Healthy);
    assert!(h.docker_running && !h.tailscale_connected);
    assert_eq!(h.uptime_seconds, 3600);
}
