use clawops::proto::{
    validate_account_id, validate_instance_id, InstancePairStatus, InstanceRole, InstanceState,
    InstanceTier, VpsProvider,
};

#[test]
fn test_validate_instance_id() {
    assert!(validate_instance_id("i-abc123"));
    assert!(validate_instance_id("gf-account1-12345678"));
    assert!(!validate_instance_id(""));
    assert!(!validate_instance_id("invalid id with spaces"));
}

#[test]
fn test_instance_tier_display() {
    assert_eq!(InstanceTier::Nano.to_string(), "nano");
    assert_eq!(InstanceTier::Enterprise.to_string(), "enterprise");
}

#[test]
fn test_vps_provider_display() {
    assert_eq!(VpsProvider::Hetzner.to_string(), "hetzner");
    assert_eq!(VpsProvider::DigitalOcean.to_string(), "digitalocean");
}

#[test]
fn test_instance_pair_status_health_is_min_of_pair() {
    assert_eq!(InstancePairStatus::compute_pair_health(90, Some(70)), 70);
    assert_eq!(InstancePairStatus::compute_pair_health(70, Some(90)), 70);
    assert_eq!(InstancePairStatus::compute_pair_health(85, None), 85);
    assert_eq!(InstancePairStatus::compute_pair_health(0, Some(100)), 0);
}

#[test]
fn instance_id_limits_and_characters() {
    assert!(validate_instance_id(&"a".repeat(128)));
    assert!(!validate_instance_id(&"a".repeat(129)));
    assert!(validate_instance_id("under_score-ok"));
    assert!(!validate_instance_id("dot.not.ok"));
    // Unicode letters are alphanumeric.
    assert!(validate_instance_id("instance-é"));
}

#[test]
fn account_id_limits() {
    assert!(!validate_account_id(""));
    assert!(validate_account_id("acc 1 with spaces"));
    assert!(validate_account_id(&"x".repeat(64)));
    assert!(!validate_account_id(&"x".repeat(65)));
}

#[test]
fn display_names() {
    assert_eq!(VpsProvider::Vultr.to_string(), "vultr");
    assert_eq!(VpsProvider::Contabo.to_string(), "contabo");
    assert_eq!(VpsProvider::Hostinger.to_string(), "hostinger");
    assert_eq!(InstanceTier::Standard.to_string(), "standard");
    assert_eq!(InstanceTier::Pro.to_string(), "pro");
    assert_eq!(InstanceRole::Primary.to_string(), "primary");
    assert_eq!(InstanceRole::Standby.to_string(), "standby");
    assert_eq!(InstanceState::default(), InstanceState::Unknown);
}
