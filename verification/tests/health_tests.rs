use clawops::health::{
    compute_health_score, recommend_action, sweep_fleet, verify_standby_precondition,
    AutoHealDecision, AutoHealStep, HealthSignals, HealthThresholds, RecommendedAction,
};
use clawops::proto::{InstanceRole, InstanceState, ServiceStatus};

fn healthy() -> HealthSignals {
    HealthSignals {
        openclaw_status: ServiceStatus::Healthy,
        docker_running: true,
        tailscale_connected: true,
        cpu_above_90_pct: false,
        mem_above_85_pct: false,
        disk_above_85_pct: false,
    }
}

#[test]
fn test_verify_standby_precondition() {
    assert!(verify_standby_precondition(InstanceState::Active));
    assert!(!verify_standby_precondition(InstanceState::Degraded));
    assert!(!verify_standby_precondition(InstanceState::Failed));
    assert!(!verify_standby_precondition(InstanceState::Unknown));
}

#[test]
fn test_auto_heal_decision_openclaw_down() {
    let decision = AutoHealDecision {
        instance_id: "i-test".to_string(),
        role: InstanceRole::Primary,
        health_score: 60,
        openclaw_down: true,
        docker_down: false,
    };
    let steps = decision.recommend();
    assert!(steps.contains(&AutoHealStep::DockerRestartedOpenclaw));
    assert!(steps.contains(&AutoHealStep::VerifiedRecovery));
}

#[test]
fn test_auto_heal_decision_critical_primary() {
    let decision = AutoHealDecision {
        instance_id: "i-test".to_string(),
        role: InstanceRole::Primary,
        health_score: 10,
        openclaw_down: true,
        docker_down: false,
    };
    let steps = decision.recommend();
    assert!(steps.contains(&AutoHealStep::VerifiedStandbyActive));
    assert!(steps.contains(&AutoHealStep::TriggeredFailover));
}

#[test]
fn test_auto_heal_decision_critical_standby() {
    let decision = AutoHealDecision {
        instance_id: "i-standby".to_string(),
        role: InstanceRole::Standby,
        health_score: 10,
        openclaw_down: true,
        docker_down: false,
    };
    let steps = decision.recommend();
    assert!(steps.contains(&AutoHealStep::EscalatedToCommander));
    assert!(!steps.contains(&AutoHealStep::TriggeredFailover));
}

#[test]
fn test_auto_heal_decision_docker_restart_when_openclaw_down() {
    let decision = AutoHealDecision {
        instance_id: "i-heal".to_string(),
        role: InstanceRole::Primary,
        health_score: 60,
        openclaw_down: true,
        docker_down: false,
    };
    let steps = decision.recommend();
    assert!(steps.contains(&AutoHealStep::DockerRestartedOpenclaw), "should recommend docker restart");
    assert!(steps.contains(&AutoHealStep::VerifiedRecovery));
    assert!(!steps.contains(&AutoHealStep::TriggeredFailover));
}

#[test]
fn test_auto_heal_decision_critical_primary_verifies_standby_first() {
    let decision = AutoHealDecision {
        instance_id: "i-critical".to_string(),
        role: InstanceRole::Primary,
        health_score: 10,
        openclaw_down: true,
        docker_down: true,
    };
    let steps = decision.recommend();
    let standby_idx = steps
        .iter()
        .position(|s| s == &AutoHealStep::VerifiedStandbyActive)
        .expect("VerifiedStandbyActive must be in steps");
    let failover_idx = steps
        .iter()
        .position(|s| s == &AutoHealStep::TriggeredFailover)
        .expect("TriggeredFailover must be in steps");
    assert!(standby_idx < failover_idx, "standby verification must come before failover trigger");
}

#[test]
fn test_standby_role_never_triggers_failover() {
    let decision = AutoHealDecision {
        instance_id: "i-standby".to_string(),
        role: InstanceRole::Standby,
        health_score: 5,
        openclaw_down: true,
        docker_down: true,
    };
    let steps = decision.recommend();
    assert!(!steps.contains(&AutoHealStep::TriggeredFailover), "standby should NEVER trigger a failover");
    assert!(steps.contains(&AutoHealStep::EscalatedToCommander), "standby failure should escalate to Commander");
}

#[test]
fn test_verify_standby_precondition_all_states() {
    assert!(verify_standby_precondition(InstanceState::Active));
    for state in [
        InstanceState::Degraded,
        InstanceState::Failed,
        InstanceState::Unknown,
        InstanceState::Bootstrapping,
        InstanceState::Maintenance,
    ] {
        assert!(!verify_standby_precondition(state), "state {:?} should block failover", state);
    }
}

#[test]
fn test_verify_standby_precondition_used_by_health_engine() {
    assert!(verify_standby_precondition(InstanceState::Active));
    assert!(!verify_standby_precondition(InstanceState::Degraded));
    assert!(!verify_standby_precondition(InstanceState::Failed));
    assert!(!verify_standby_precondition(InstanceState::Unknown));
    assert!(!verify_standby_precondition(InstanceState::Bootstrapping));
}

// ─── Scores, actions and sweeps ──────────────────────────────────────────────

#[test]
fn health_score_deductions() {
    assert_eq!(compute_health_score(&healthy()), 100);
    let mut s = healthy();
    s.openclaw_status = ServiceStatus::Down;
    assert_eq!(compute_health_score(&s), 60);
    s.docker_running = false;
    s.tailscale_connected = false;
    assert_eq!(compute_health_score(&s), 25);
    s.cpu_above_90_pct = true;
    s.mem_above_85_pct = true;
    s.disk_above_85_pct = true;
    // Would be -5; clamped to 0.
    assert_eq!(compute_health_score(&s), 0);
    let mut d = healthy();
    d.openclaw_status = ServiceStatus::Degraded;
    assert_eq!(compute_health_score(&d), 60);
}

#[test]
fn recommended_actions_by_score() {
    let t = HealthThresholds::default();
    assert_eq!(t.degraded_score, 70);
    assert_eq!(t.critical_score, 40);
    assert_eq!(recommend_action(100, &t), RecommendedAction::NoAction);
    assert_eq!(recommend_action(70, &t), RecommendedAction::NoAction);
    assert_eq!(recommend_action(60, &t), RecommendedAction::Monitor);
    assert_eq!(recommend_action(40, &t), RecommendedAction::Monitor);
    assert_eq!(recommend_action(35, &t), RecommendedAction::AutoHeal);
    assert_eq!(recommend_action(20, &t), RecommendedAction::AutoHeal);
    assert_eq!(recommend_action(19, &t), RecommendedAction::EscalateToCommander);
    assert_eq!(recommend_action(0, &t), RecommendedAction::EscalateToCommander);
}

#[test]
fn fleet_sweep_counts_by_action() {
    let t = HealthThresholds::default();
    let mut degraded = healthy();
    degraded.openclaw_status = ServiceStatus::Down;
    let mut critical = degraded;
    critical.docker_running = false;
    critical.tailscale_connected = false;
    let mut dead = critical;
    dead.cpu_above_90_pct = true;
    let r = sweep_fleet(&vec![healthy(), healthy(), degraded, critical, dead], &t, 1_700_000_000);
    assert_eq!(r.total_instances, 5);
    assert_eq!(r.healthy, 2);
    assert_eq!(r.degraded, 1);
    assert_eq!(r.critical, 2);
    assert_eq!(r.auto_heal_triggered, 1);
    assert_eq!(r.escalated_to_commander, 1);
    assert_eq!(r.failovers_triggered, 0);
    assert_eq!(r.swept_at, 1_700_000_000);
}

#[test]
fn heal_steps_exact_sequence() {
    let d = AutoHealDecision {
        instance_id: "i".to_string(),
        role: InstanceRole::Primary,
        health_score: 39,
        openclaw_down: false,
        docker_down: true,
    };
    assert_eq!(
        d.recommend(),
        vec![
            AutoHealStep::VerifiedHealth,
            AutoHealStep::DockerRestartedOpenclaw,
            AutoHealStep::WaitedForRecovery,
            AutoHealStep::VerifiedRecovery,
            AutoHealStep::CheckedPairRole,
            AutoHealStep::VerifiedStandbyActive,
            AutoHealStep::TriggeredFailover,
        ]
    );
    let healthy_decision = AutoHealDecision {
        instance_id: "i".to_string(),
        role: InstanceRole::Standby,
        health_score: 40,
        openclaw_down: false,
        docker_down: false,
    };
    assert_eq!(healthy_decision.recommend(), vec![AutoHealStep::VerifiedHealth]);
}

#[test]
fn test_fleet_health_sweep() {
    let thresholds = HealthThresholds::default();
    let reports = vec![
        healthy(),
        healthy(),
        HealthSignals { openclaw_status: ServiceStatus::Down, ..healthy() },
        HealthSignals {
            openclaw_status: ServiceStatus::Down,
            docker_running: false,
            tailscale_connected: false,
            ..healthy()
        },
    ];
    let result = sweep_fleet(&reports, &thresholds, 0);
    assert_eq!(result.total_instances, 4);
    assert_eq!(result.healthy, 2);
    assert_eq!(result.degraded, 1);
    assert_eq!(result.critical, 1);
    assert_eq!(result.auto_heal_triggered, 1);
    assert_eq!(result.healthy + result.degraded + result.critical, result.total_instances);
}
