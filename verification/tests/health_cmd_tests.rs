use clawops::commands::{route_command, system_run_args, CommandRoute};
use clawops::secrets_cmd::ParamValue;
use clawops::words::split_words;
use clawops::health::{service_alerts, AlertSeverity, AlertType, HealthThresholds};
use clawops::health_cmd::{
    docker_ok, openclaw_status, provider_from_config, role_from_config, state_for_score, tier_from_config,
};
use clawops::proto::{InstanceRole, InstanceState, InstanceTier, ServiceStatus, VpsProvider};

#[test]
fn configured_names_are_read_with_defaults() {
    assert_eq!(tier_from_config("nano"), InstanceTier::Nano);
    assert_eq!(tier_from_config("enterprise"), InstanceTier::Enterprise);
    assert_eq!(tier_from_config("huge"), InstanceTier::Standard);
    assert_eq!(role_from_config("standby"), InstanceRole::Standby);
    assert_eq!(role_from_config("Standby"), InstanceRole::Primary);
    assert_eq!(provider_from_config("digitalocean"), VpsProvider::DigitalOcean);
    assert_eq!(provider_from_config(""), VpsProvider::Hetzner);
}

#[test]
fn openclaw_and_docker_checks() {
    assert_eq!(openclaw_status(false, Some("docker,openclaw")), ServiceStatus::Down);
    assert_eq!(openclaw_status(false, Some("docker")), ServiceStatus::Healthy);
    assert_eq!(openclaw_status(false, None), ServiceStatus::Healthy);
    assert_eq!(openclaw_status(true, Some("openclaw")), ServiceStatus::Healthy);
    assert!(docker_ok(false, false));
    assert!(!docker_ok(false, true));
    assert!(docker_ok(true, true));
}

#[test]
fn score_states_follow_thresholds() {
    let t = HealthThresholds::default();
    assert_eq!(state_for_score(70, &t), InstanceState::Active);
    assert_eq!(state_for_score(69, &t), InstanceState::Degraded);
    assert_eq!(state_for_score(40, &t), InstanceState::Degraded);
    assert_eq!(state_for_score(39, &t), InstanceState::Failed);
}

#[test]
fn commands_route_to_their_handlers() {
    assert_eq!(route_command("system.info"), Ok(CommandRoute::VpsInfo));
    assert_eq!(route_command("node.health"), Ok(CommandRoute::HealthCheck));
    assert_eq!(route_command("config.list"), Ok(CommandRoute::Config));
    assert_eq!(route_command("secret.rotate"), Ok(CommandRoute::Secret));
    assert_eq!(route_command("audit.query"), Ok(CommandRoute::Auth));
    assert_eq!(route_command("vps.explode"), Err("unknown command: vps.explode".to_string()));
}

#[test]
fn service_checks_raise_alerts_in_order() {
    let alerts = service_alerts(ServiceStatus::Down, false, false);
    let kinds: Vec<(AlertType, AlertSeverity)> = alerts.iter().map(|a| (a.alert_type, a.severity)).collect();
    assert_eq!(
        kinds,
        vec![
            (AlertType::OpenClawDown, AlertSeverity::Critical),
            (AlertType::DockerDown, AlertSeverity::Critical),
            (AlertType::TailscaleDisconnected, AlertSeverity::Warning),
        ]
    );
    assert_eq!(alerts[1].message, "Docker daemon is not running");
    assert!(service_alerts(ServiceStatus::Healthy, true, true).is_empty());
}

#[test]
fn system_run_splits_the_command_line() {
    let line = ParamValue::Text("  docker  ps -a\t".to_string());
    assert_eq!(system_run_args(&line, &ParamValue::Absent), Ok(vec!["docker".to_string(), "ps".to_string(), "-a".to_string()]));
    let fallback = ParamValue::Text("uptime".to_string());
    assert_eq!(system_run_args(&ParamValue::Absent, &fallback), Ok(vec!["uptime".to_string()]));
    assert_eq!(system_run_args(&ParamValue::Other, &fallback), Err("missing 'command' param".to_string()));
    assert_eq!(system_run_args(&ParamValue::Text(" \n ".to_string()), &ParamValue::Absent), Err("empty command".to_string()));
    assert_eq!(split_words("a\u{3000}b"), vec!["a".to_string(), "b".to_string()]);
}
