use clawops::gf_audit::{fleet_target, instance_target, TargetType};
use clawops::gf_health::InstanceHealthStatus;
use clawops::gf_node::InstanceRole;
use clawops::ledger::downsize_tier;
use clawops::metrics::{MetricName, MetricsError};
use clawops::proto::InstanceTier;
use clawops::provision::{
    hetzner_location, hetzner_regions, hetzner_server_type, provider_name, Continent, hetzner_server_name, server_wait_step, ServerWait};

#[test]
fn test_downsize_tier_chain() {
    assert_eq!(downsize_tier(&InstanceTier::Enterprise), InstanceTier::Pro);
    assert_eq!(downsize_tier(&InstanceTier::Pro), InstanceTier::Standard);
    assert_eq!(downsize_tier(&InstanceTier::Standard), InstanceTier::Nano);
    assert_eq!(downsize_tier(&InstanceTier::Nano), InstanceTier::Nano);
}

#[test]
fn test_metric_name_valid() {
    assert!(MetricName::new("cpu.usage").is_ok());
    assert!(MetricName::new("instance-1.mem_pct").is_ok());
}

#[test]
fn test_metric_name_invalid() {
    assert!(MetricName::new("").is_err());
    assert!(MetricName::new("name with spaces").is_err());
}

#[test]
fn metric_name_errors_are_exact() {
    match MetricName::new("") {
        Err(MetricsError::InvalidName(m)) => assert_eq!(m, "empty name"),
        _ => panic!("expected InvalidName"),
    }
    match MetricName::new("a b") {
        Err(MetricsError::InvalidName(m)) => assert_eq!(m, "invalid chars in 'a b'"),
        _ => panic!("expected InvalidName"),
    }
    assert_eq!(MetricName::new("ok_1").unwrap().0, "ok_1");
}

#[test]
fn test_hetzner_server_type_mapping() {
    assert_eq!(hetzner_server_type(&InstanceTier::Nano), "cx11");
    assert_eq!(hetzner_server_type(&InstanceTier::Standard), "cx21");
    assert_eq!(hetzner_server_type(&InstanceTier::Pro), "cx31");
    assert_eq!(hetzner_server_type(&InstanceTier::Enterprise), "cx41");
}

#[test]
fn test_hetzner_location_mapping() {
    assert_eq!(hetzner_location("eu-hetzner-nbg1"), "nbg1");
    assert_eq!(hetzner_location("eu-hetzner-hel1"), "hel1");
    assert_eq!(hetzner_location("unknown"), "nbg1");
}

#[test]
fn test_hetzner_regions() {
    let regions = hetzner_regions();
    assert!(!regions.is_empty());
    assert!(regions.iter().any(|r| r.id == "eu-hetzner-nbg1"));
    assert!(regions.iter().any(|r| r.continent == Continent::EU));
    assert_eq!(hetzner_location("eu-hetzner-fsn1"), "fsn1");
    assert_eq!(hetzner_location("us-hetzner-ash"), "ash");
    assert_eq!(provider_name(&clawops::proto::VpsProvider::DigitalOcean), "digitalocean");
}

#[test]
fn instance_role_primary_displays_as_primary() {
    let role = InstanceRole::Primary;
    assert_eq!(role.to_string(), "primary");
}

#[test]
fn instance_role_standby_displays_as_standby() {
    let role = InstanceRole::Standby;
    assert_eq!(role.to_string(), "standby");
}

#[test]
fn instance_health_status_healthy_ne_critical() {
    assert_ne!(InstanceHealthStatus::Healthy, InstanceHealthStatus::Critical);
    assert_eq!(InstanceHealthStatus::Healthy, InstanceHealthStatus::Healthy);
    assert_ne!(InstanceHealthStatus::Degraded, InstanceHealthStatus::Unknown);
}

#[test]
fn audit_targets() {
    let t = instance_target("inst-001", "acct-xyz", "hetzner");
    assert_eq!(t.target_type, TargetType::Instance);
    assert_eq!(t.target_id, "inst-001");
    assert_eq!(t.account_id.as_deref(), Some("acct-xyz"));
    assert_eq!(t.provider.as_deref(), Some("hetzner"));
    assert!(t.region.is_none());
    let f = fleet_target();
    assert_eq!(f.target_type, TargetType::Fleet);
    assert_eq!(f.target_id, "fleet");
    assert!(f.account_id.is_none());
}

#[test]
fn node_role_setting() {
    assert_eq!(InstanceRole::from_setting("standby"), InstanceRole::Standby);
    assert_eq!(InstanceRole::from_setting("primary"), InstanceRole::Primary);
    assert_eq!(InstanceRole::from_setting("Standby"), InstanceRole::Primary);
}

#[test]
fn test_cloud_init_script_contains_key_elements() {
    let script = clawops::provision::cloud_init_script_with(
        "i-test",
        "acc-1",
        "wss://gateway.example.com",
        "api-key-123",
        &clawops::proto::InstanceRole::Primary,
        Some("i-standby"),
        "standard",
        "hetzner",
        "eu-hetzner-nbg1",
        "",
        "https://releases.clawops.io/clawnode/latest/clawnode-linux-amd64",
    );
    assert!(script.contains("i-test"));
    assert!(script.contains("acc-1"));
    assert!(script.contains("primary"));
    assert!(script.contains("clawnode"));
    assert!(script.contains("Docker"));
    assert!(script.contains("Tailscale"));
}

#[test]
fn cloud_init_config_block_exact() {
    let script = clawops::provision::cloud_init_script_with(
        "i-9", "acc-9", "wss://g", "key", &clawops::proto::InstanceRole::Standby, None, "nano", "vultr", "ewr", "tskey", "https://x/bin",
    );
    assert!(script.starts_with("#!/bin/bash\nset -euo pipefail\n"));
    assert!(script.contains("tailscale up --authkey=\"tskey\" --hostname=\"co-i-9\" --accept-routes\n"));
    assert!(script.contains("wget -q -O /usr/local/bin/clawnode \"https://x/bin\"\n"));
    assert!(script.contains(
        "{\n  \"instance_id\": \"i-9\",\n  \"account_id\": \"acc-9\",\n  \"gateway\": \"wss://g\",\n  \"token\": \"key\",\n  \"provider\": \"vultr\",\n  \"region\": \"ewr\",\n  \"tier\": \"nano\",\n  \"role\": \"standby\",\n  \"pair_instance_id\": \"\",\n  \"heartbeat_interval_secs\": 30\n}\n"
    ));
    assert!(script.ends_with("echo \"clawnode bootstrap complete - instance i-9\"\n"));
}

#[test]
fn hetzner_servers_are_named_and_waited_for() {
    assert_eq!(
        hetzner_server_name("acct-1", "1b4e28ba-2fa1-11d2-883f-0016d3cca427"),
        "co-acct-1-1b4e28ba"
    );
    assert!(matches!(server_wait_step(7, 0, "running"), ServerWait::Ready));
    assert!(matches!(server_wait_step(7, 5, "initializing"), ServerWait::Wait));
    assert!(matches!(server_wait_step(7, 5, "off"), ServerWait::Fail(ref m) if m == "server 7 entered unexpected state: off"));
    assert!(matches!(
        server_wait_step(7, 119, "starting"),
        ServerWait::Fail(ref m) if m == "timeout waiting for Hetzner server 7 to reach running state"
    ));
}
