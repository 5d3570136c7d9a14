use clawops::proto::{CheckStatus, HealthCheck, VpsProvider};
use clawops::triage::{
    HealthEvent, Incident, IncidentManager, IncidentStatus, RootCauseCategory, Severity, TimelineEntry,
};

fn now() -> i64 {
    chrono::Utc::now().timestamp_millis()
}

fn make_trigger(users: u32, data_loss: bool) -> HealthEvent {
    HealthEvent {
        instance_id: "i-test".to_string(),
        account_id: "acc-1".to_string(),
        health_score: 20,
        provider: VpsProvider::Hetzner,
        region: "eu-hetzner-nbg1".to_string(),
        description: "OpenClaw gateway unreachable".to_string(),
        affected_users: users,
        data_loss_risk: data_loss,
        detected_at: now(),
    }
}

#[test]
fn test_create_incident_p3() {
    let mut mgr = IncidentManager::new();
    let trigger = make_trigger(5, false);
    let inc = mgr.create_incident(trigger);
    assert_eq!(inc.severity, Severity::P3);
    assert_eq!(inc.status, IncidentStatus::Open);
    assert_eq!(inc.timeline.len(), 1);
    assert!(inc.title.contains("P3"));
}

#[test]
fn test_create_incident_p1_data_loss() {
    let mut mgr = IncidentManager::new();
    let trigger = make_trigger(1, true);
    let inc = mgr.create_incident(trigger);
    assert_eq!(inc.severity, Severity::P1);
}

#[test]
fn test_add_timeline_entry() {
    let mut mgr = IncidentManager::new();
    let trigger = make_trigger(5, false);
    let id = {
        let inc = mgr.create_incident(trigger);
        inc.id.clone()
    };
    let entry = TimelineEntry {
        timestamp: now(),
        actor: "guardian".to_string(),
        action: "failover triggered".to_string(),
        outcome: "Standby promoted to primary".to_string(),
    };
    mgr.add_timeline_entry(&id, entry).unwrap();
    let inc = mgr.get(&id).unwrap();
    assert_eq!(inc.timeline.len(), 2);
}

#[test]
fn test_add_timeline_entry_not_found() {
    let mut mgr = IncidentManager::new();
    let entry = TimelineEntry {
        timestamp: now(),
        actor: "guardian".to_string(),
        action: "test".to_string(),
        outcome: "test".to_string(),
    };
    let result = mgr.add_timeline_entry("nonexistent-id", entry);
    assert!(result.is_err());
}

#[test]
fn test_update_status_resolved() {
    let mut mgr = IncidentManager::new();
    let trigger = make_trigger(5, false);
    let id = {
        let inc = mgr.create_incident(trigger);
        inc.id.clone()
    };
    mgr.update_status(&id, IncidentStatus::Resolved).unwrap();
    let inc = mgr.get(&id).unwrap();
    assert_eq!(inc.status, IncidentStatus::Resolved);
    assert!(inc.resolved_at.is_some());
}

#[test]
fn test_open_incidents_filter() {
    let mut mgr = IncidentManager::new();
    let id1 = mgr.create_incident(make_trigger(5, false)).id.clone();
    mgr.create_incident(make_trigger(5, false));
    mgr.update_status(&id1, IncidentStatus::Resolved).unwrap();
    assert_eq!(mgr.open_incidents().len(), 1);
}

#[test]
fn test_count_by_severity() {
    let mut mgr = IncidentManager::new();
    mgr.create_incident(make_trigger(100, false)); // P1
    mgr.create_incident(make_trigger(20, false)); // P2
    mgr.create_incident(make_trigger(5, false)); // P3
    assert_eq!(mgr.count_by_severity(Severity::P1), 1);
    assert_eq!(mgr.count_by_severity(Severity::P2), 1);
    assert_eq!(mgr.count_by_severity(Severity::P3), 1);
    assert_eq!(mgr.count_by_severity(Severity::P4), 0);
}

#[test]
fn test_add_affected_instance_no_dupe() {
    let mut mgr = IncidentManager::new();
    let id = mgr.create_incident(make_trigger(5, false)).id.clone();
    mgr.add_affected_instance(&id, "i-test".to_string()).unwrap();
    // i-test already in list from trigger
    let inc = mgr.get(&id).unwrap();
    assert_eq!(inc.affected_instances.len(), 1);
    mgr.add_affected_instance(&id, "i-new".to_string()).unwrap();
    let inc = mgr.get(&id).unwrap();
    assert_eq!(inc.affected_instances.len(), 2);
}

#[test]
fn test_determine_root_cause_provider_outage() {
    let mut mgr = IncidentManager::new();
    let trigger = make_trigger(100, false);
    let id = mgr.create_incident(trigger).id.clone();
    // Simulate 15 affected instances
    for n in 0..14 {
        mgr.add_affected_instance(&id, format!("i-extra-{}", n)).unwrap();
    }
    let inc = mgr.get(&id).unwrap().clone();
    let health_data = vec![];
    let rc = mgr.determine_root_cause(&inc, &health_data);
    assert_eq!(rc.category, RootCauseCategory::ProviderOutage);
}

#[test]
fn test_determine_root_cause_network() {
    let mgr = IncidentManager::new();
    let trigger = make_trigger(3, false);
    let incident = Incident {
        id: "test-inc".to_string(),
        severity: Severity::P3,
        title: "test".to_string(),
        description: trigger.description,
        status: IncidentStatus::Open,
        affected_instances: vec!["i-test".to_string()],
        affected_users: 3,
        provider: VpsProvider::Hetzner,
        region: "eu-hetzner-nbg1".to_string(),
        timeline: vec![],
        root_cause: None,
        actions_taken: vec![],
        created_at: now(),
        resolved_at: None,
    };
    let health_data = vec![HealthCheck {
        name: "tailscale".to_string(),
        status: CheckStatus::Critical,
        message: "Tailscale disconnected".to_string(),
    }];
    let rc = mgr.determine_root_cause(&incident, &health_data);
    assert_eq!(rc.category, RootCauseCategory::NetworkIssue);
}

#[test]
fn test_generate_report_structure() {
    let mut mgr = IncidentManager::new();
    let trigger = make_trigger(60, false); // P1
    let id = mgr.create_incident(trigger).id.clone();
    let inc = mgr.get(&id).unwrap().clone();
    let report = mgr.generate_report(&inc);
    assert_eq!(report.incident_id, id);
    assert_eq!(report.severity, Severity::P1);
    assert!(!report.summary.is_empty());
    assert!(!report.recommended_next_steps.is_empty());
    // P1 should escalate
    assert!(report.recommended_next_steps.iter().any(|s| s.contains("CRITICAL")));
}

#[test]
fn test_generate_report_resolved() {
    let mut mgr = IncidentManager::new();
    let id = mgr.create_incident(make_trigger(5, false)).id.clone();
    mgr.update_status(&id, IncidentStatus::Resolved).unwrap();
    let inc = mgr.get(&id).unwrap().clone();
    let report = mgr.generate_report(&inc);
    assert!(report.summary.contains("RESOLVED"));
    assert!(report.recommended_next_steps.iter().any(|s| s.contains("post-incident")));
}

// ─── Exact values ───────────────────────────────────────────────────────────

fn fixed_trigger(users: u32) -> HealthEvent {
    HealthEvent {
        instance_id: "i-1".to_string(),
        account_id: "acc-1".to_string(),
        health_score: 20,
        provider: VpsProvider::Vultr,
        region: "ewr".to_string(),
        description: "gateway down".to_string(),
        affected_users: users,
        data_loss_risk: false,
        detected_at: 1_000_000,
    }
}

#[test]
fn incident_exact_title_and_entry() {
    let mut mgr = IncidentManager::new();
    let inc = mgr.create_incident_with_id(fixed_trigger(20), "inc-1".to_string());
    assert_eq!(inc.id, "inc-1");
    assert_eq!(inc.title, "[P2] vultr ewr — gateway down (score: 20)");
    assert_eq!(inc.timeline[0].outcome, "Health event detected: gateway down — score 20");
    assert_eq!(inc.timeline[0].actor, "guardian");
    assert_eq!(inc.created_at, 1_000_000);
    assert_eq!(
        mgr.update_status_at("nope", IncidentStatus::Mitigated, 5),
        Err("Incident nope not found".to_string())
    );
}

#[test]
fn incident_exact_report_and_duration() {
    let mut mgr = IncidentManager::new();
    mgr.create_incident_with_id(fixed_trigger(3), "inc-9".to_string());
    mgr.add_timeline_entry(
        "inc-9",
        TimelineEntry {
            timestamp: 1_000_100,
            actor: "guardian".to_string(),
            action: "failover triggered".to_string(),
            outcome: "ok".to_string(),
        },
    )
    .unwrap();
    mgr.add_affected_instance("inc-9", "i-2".to_string()).unwrap();
    // 125 minutes and 59 seconds later: whole minutes only.
    mgr.update_status_at("inc-9", IncidentStatus::Resolved, 1_000_000 + 125 * 60_000 + 59_000).unwrap();
    let inc = mgr.get("inc-9").unwrap().clone();
    assert_eq!(inc.duration_mins_at(0), 125);
    let report = mgr.generate_report_at(&inc, 42);
    assert_eq!(
        report.summary,
        "Triage report: 2 instance(s) affected in vultr ewr. 1 failover action(s) recorded. Incident RESOLVED in 125 minutes."
    );
    assert_eq!(report.generated_at, 42);
    assert_eq!(
        report.recommended_next_steps,
        vec!["Schedule post-incident review".to_string(), "Update runbook with lessons learned".to_string()]
    );
    // An open P3 incident asks to confirm standbys, without escalation.
    let mut mgr2 = IncidentManager::new();
    mgr2.create_incident_with_id(fixed_trigger(3), "x".to_string());
    let inc2 = mgr2.get("x").unwrap().clone();
    let r2 = mgr2.generate_report_at(&inc2, 0);
    assert_eq!(
        r2.recommended_next_steps,
        vec![
            "Check provider status page for regional issues".to_string(),
            "Confirm all affected instances have ACTIVE standbys before failover".to_string()
        ]
    );
    assert_eq!(r2.summary, "Triage report: 1 instance(s) affected in vultr ewr. Incident is OPEN — investigating.");
}

#[test]
fn incident_exact_root_cause() {
    let mgr = IncidentManager::new();
    let mut m2 = IncidentManager::new();
    let inc = m2.create_incident_with_id(fixed_trigger(3), "rc".to_string()).clone();
    let checks = vec![
        HealthCheck { name: "disk".to_string(), status: CheckStatus::Degraded, message: "92% full".to_string() },
        HealthCheck { name: "cpu".to_string(), status: CheckStatus::Healthy, message: "ok".to_string() },
        HealthCheck { name: "docker".to_string(), status: CheckStatus::Critical, message: "daemon down".to_string() },
    ];
    let rc = mgr.determine_root_cause(&inc, &checks);
    assert_eq!(rc.category, RootCauseCategory::ResourceExhaustion);
    assert_eq!(rc.description, "ResourceExhaustion — 2 failing health checks detected");
    assert_eq!(rc.evidence, vec!["disk: 92% full".to_string(), "docker: daemon down".to_string()]);
    assert_eq!(rc.confidence, clawops::triage::RootCauseConfidence::Low);
}
