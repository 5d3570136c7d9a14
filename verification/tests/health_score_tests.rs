use clawops::gf_health::{FleetHealthSweeper, HealthThresholds as GfThresholds, ReportSignals};
use clawops::gf_proto::ServiceStatus as GfServiceStatus;
use clawops::health::{compute_health_score, recommend_action, sweep_fleet, HealthSignals, HealthThresholds, RecommendedAction};
use clawops::proto::ServiceStatus;

/// The signals of a node report, from its measured figures.
fn signals(openclaw: ServiceStatus, docker_running: bool, tailscale_connected: bool, cpu: f64, mem: f64, disk: f64) -> HealthSignals {
    HealthSignals {
        openclaw_status: openclaw,
        docker_running,
        tailscale_connected,
        cpu_above_90_pct: cpu > 90.0,
        mem_above_85_pct: mem > 85.0,
        disk_above_85_pct: disk > 85.0,
    }
}

fn make_healthy_report() -> HealthSignals {
    signals(ServiceStatus::Healthy, true, true, 20.0, 40.0, 30.0)
}

#[test]
fn test_compute_health_score_healthy() {
    let report = make_healthy_report();
    assert_eq!(compute_health_score(&report), 100);
}

#[test]
fn test_compute_health_score_openclaw_down() {
    let mut report = make_healthy_report();
    report.openclaw_status = ServiceStatus::Down;
    assert_eq!(compute_health_score(&report), 60); // 100 - 40
}

#[test]
fn test_compute_health_score_multiple_issues() {
    let mut report = make_healthy_report();
    report.openclaw_status = ServiceStatus::Down;
    report.docker_running = false;
    report.tailscale_connected = false;
    assert_eq!(compute_health_score(&report), 25); // 100 - 40 - 20 - 15
}

#[test]
fn test_health_score_minimum_zero() {
    let report = signals(ServiceStatus::Down, false, false, 95.0, 90.0, 90.0);
    assert_eq!(compute_health_score(&report), 0); // would be -5, clamped to 0
}

#[test]
fn test_recommend_action_healthy() {
    let thresholds = HealthThresholds::default();
    assert_eq!(recommend_action(100, &thresholds), RecommendedAction::NoAction);
    assert_eq!(recommend_action(80, &thresholds), RecommendedAction::NoAction);
    assert_eq!(recommend_action(70, &thresholds), RecommendedAction::NoAction);
}

#[test]
fn test_recommend_action_degraded() {
    let thresholds = HealthThresholds::default();
    assert_eq!(recommend_action(60, &thresholds), RecommendedAction::Monitor);
    assert_eq!(recommend_action(41, &thresholds), RecommendedAction::Monitor);
}

#[test]
fn test_recommend_action_critical() {
    let thresholds = HealthThresholds::default();
    assert_eq!(recommend_action(35, &thresholds), RecommendedAction::AutoHeal);
    assert_eq!(recommend_action(20, &thresholds), RecommendedAction::AutoHeal);
}

#[test]
fn test_recommend_action_escalate() {
    let thresholds = HealthThresholds::default();
    assert_eq!(recommend_action(0, &thresholds), RecommendedAction::EscalateToCommander);
    assert_eq!(recommend_action(10, &thresholds), RecommendedAction::EscalateToCommander);
}

#[test]
fn lib_test_fleet_health_sweep() {
    let thresholds = HealthThresholds::default();
    let reports = vec![make_healthy_report(), make_healthy_report(), {
        let mut r = make_healthy_report();
        r.openclaw_status = ServiceStatus::Down;
        r
    }];
    let result = sweep_fleet(&reports, &thresholds, chrono::Utc::now().timestamp());
    assert_eq!(result.total_instances, 3);
    assert_eq!(result.healthy, 2);
    assert!(result.degraded + result.critical > 0);
}

// ─── Fleet sweeper scores ───────────────────────────────────────────────────

/// The signals of a full report, from its measured figures.
fn report_signals(openclaw: GfServiceStatus, unhealthy: u32, disk: f64, cpu: f64, mem: f64) -> ReportSignals {
    ReportSignals {
        openclaw_status: openclaw,
        unhealthy_containers: unhealthy,
        disk_above_90_pct: disk > 90.0,
        disk_above_80_pct: disk > 80.0,
        cpu_above_95_pct: cpu > 95.0,
        mem_above_95_pct: mem > 95.0,
    }
}

fn make_perfect_report() -> ReportSignals {
    report_signals(GfServiceStatus::Healthy, 0, 40.0, 20.0, 30.0)
}

#[test]
fn health_thresholds_default_values() {
    let thresholds = GfThresholds::default();
    assert_eq!(thresholds.heal_trigger_score, 50);
    assert_eq!(thresholds.recovery_score, 70);
    assert_eq!(thresholds.heartbeat_timeout_mins, 3);
}

#[test]
fn fleet_health_sweeper_new_uses_given_thresholds() {
    let thresholds = GfThresholds { heal_trigger_score: 40, recovery_score: 65, heartbeat_timeout_mins: 5 };
    let sweeper = FleetHealthSweeper::new(thresholds.clone());
    assert_eq!(sweeper.thresholds.heal_trigger_score, 40);
    assert_eq!(sweeper.thresholds.recovery_score, 65);
}

#[test]
fn compute_score_perfect_report_returns_100() {
    let report = make_perfect_report();
    assert_eq!(FleetHealthSweeper::compute_score(&report), 100);
}

#[test]
fn compute_score_openclaw_down_returns_60() {
    let mut report = make_perfect_report();
    report.openclaw_status = GfServiceStatus::Down;
    // 100 - 40 (openclaw not healthy) = 60
    assert_eq!(FleetHealthSweeper::compute_score(&report), 60);
}

#[test]
fn compute_score_openclaw_down_plus_one_unhealthy_container_returns_40() {
    let mut report = make_perfect_report();
    report.openclaw_status = GfServiceStatus::Down;
    report.unhealthy_containers = 1;
    // 100 - 40 (openclaw) - 20 * 1 (unhealthy container) = 40
    assert_eq!(FleetHealthSweeper::compute_score(&report), 40);
}

#[test]
fn compute_score_disk_above_90_subtracts_15() {
    let report = report_signals(GfServiceStatus::Healthy, 0, 91.0, 20.0, 30.0);
    // 100 - 15 (disk > 90%) = 85
    assert_eq!(FleetHealthSweeper::compute_score(&report), 85);
}
