use clawops::commander::{
    Action, ActionType, CommanderEngine, CostQueryDetail, HealthScope, OperatorIntent, SafetyResult,
    SafetyRules, SpecialistAction, SpecialistResult, TeardownScope,
};

fn eng() -> CommanderEngine {
    CommanderEngine::new()
}

// ─── Intent parsing ─────────────────────────────────────────────────────────

#[test]
fn test_parse_provision_intent() {
    let intent = eng().parse_intent("Provision 20 new standard-tier accounts");
    assert!(
        matches!(intent, OperatorIntent::ProvisionRequest { count: 20, .. }),
        "got {:?}",
        intent
    );
}

#[test]
fn test_parse_provision_with_tier() {
    let intent = eng().parse_intent("Provision 5 enterprise accounts for beta");
    if let OperatorIntent::ProvisionRequest { tier_hint, .. } = intent {
        assert_eq!(tier_hint, Some("enterprise".to_string()));
    } else {
        panic!("Expected ProvisionRequest");
    }
}

#[test]
fn test_parse_cost_waste_query() {
    let intent = eng().parse_intent("What are we wasting money on this month?");
    assert_eq!(intent, OperatorIntent::CostQuery { detail: CostQueryDetail::Waste });
}

#[test]
fn test_parse_cost_general_query() {
    let intent = eng().parse_intent("How much are we spending?");
    assert_eq!(intent, OperatorIntent::CostQuery { detail: CostQueryDetail::General });
}

#[test]
fn test_parse_teardown_idle() {
    let intent = eng().parse_intent("Teardown idle accounts");
    assert_eq!(intent, OperatorIntent::TeardownRequest { scope: TeardownScope::IdleAccounts });
}

#[test]
fn test_parse_config_push() {
    let intent = eng().parse_intent("Push the new config to 847 instances");
    assert!(
        matches!(intent, OperatorIntent::ConfigPush { instance_count_hint: Some(847) }),
        "got {:?}",
        intent
    );
}

#[test]
fn test_parse_incident_query() {
    let intent = eng().parse_intent("Hetzner Nuremberg looks down. What's our exposure?");
    assert_eq!(intent, OperatorIntent::IncidentQuery);
}

#[test]
fn test_parse_health_query() {
    let intent = eng().parse_intent("What's the fleet health?");
    assert!(matches!(intent, OperatorIntent::HealthQuery { .. }), "got {:?}", intent);
}

#[test]
fn test_parse_fleet_status() {
    let intent = eng().parse_intent("Give me a fleet overview");
    assert_eq!(intent, OperatorIntent::FleetStatus);
}

#[test]
fn test_parse_unknown() {
    let intent = eng().parse_intent("Hello there");
    assert!(matches!(intent, OperatorIntent::Unknown { .. }));
}

// ─── Routing ────────────────────────────────────────────────────────────────

#[test]
fn test_route_provision_to_forge() {
    let action = eng().route_to_specialist(&OperatorIntent::ProvisionRequest {
        count: 20,
        tier_hint: Some("standard".to_string()),
    });
    assert!(matches!(action, SpecialistAction::SpawnForge { .. }));
}

#[test]
fn test_route_cost_to_ledger() {
    let action = eng().route_to_specialist(&OperatorIntent::CostQuery { detail: CostQueryDetail::Waste });
    assert!(matches!(action, SpecialistAction::SendToLedger { .. }));
}

#[test]
fn test_route_incident_to_triage() {
    let action = eng().route_to_specialist(&OperatorIntent::IncidentQuery);
    assert!(matches!(action, SpecialistAction::SpawnTriage { .. }));
}

#[test]
fn test_route_health_to_guardian() {
    let action = eng().route_to_specialist(&OperatorIntent::HealthQuery { scope: HealthScope::Fleet });
    assert!(matches!(action, SpecialistAction::SendToGuardian { .. }));
}

#[test]
fn test_route_large_config_push_to_direct() {
    let action = eng().route_to_specialist(&OperatorIntent::ConfigPush { instance_count_hint: Some(847) });
    assert!(matches!(action, SpecialistAction::HandleDirectly { .. }));
}

#[test]
fn test_route_small_config_push_to_guardian() {
    let action = eng().route_to_specialist(&OperatorIntent::ConfigPush { instance_count_hint: Some(50) });
    assert!(matches!(action, SpecialistAction::SendToGuardian { .. }));
}

// ─── Safety checks ──────────────────────────────────────────────────────────

fn safe_action(action_type: ActionType) -> Action {
    Action {
        action_type,
        affected_users: 5,
        affected_instance_count: 10,
        is_primary_teardown: false,
        standby_confirmed_active: true,
        has_audit_log_entry: true,
    }
}

#[test]
fn test_safety_approved_simple() {
    let result = eng().safety_check(&safe_action(ActionType::Provision));
    assert_eq!(result, SafetyResult::Approved);
}

#[test]
fn test_safety_blocked_teardown_no_standby() {
    let mut action = safe_action(ActionType::Teardown);
    action.is_primary_teardown = true;
    action.standby_confirmed_active = false;
    let result = eng().safety_check(&action);
    assert!(matches!(result, SafetyResult::Blocked { .. }), "expected Blocked, got {:?}", result);
}

#[test]
fn test_safety_blocked_teardown_no_audit() {
    let mut action = safe_action(ActionType::Teardown);
    action.has_audit_log_entry = false;
    let result = eng().safety_check(&action);
    assert!(matches!(result, SafetyResult::Blocked { .. }));
}

#[test]
fn test_safety_blocked_config_push_too_large() {
    let mut action = safe_action(ActionType::ConfigPush);
    action.affected_instance_count = 150;
    let result = eng().safety_check(&action);
    assert!(matches!(result, SafetyResult::Blocked { .. }));
}

#[test]
fn test_safety_requires_confirmation_many_users() {
    let mut action = safe_action(ActionType::BulkOperation);
    action.affected_users = 50;
    let result = eng().safety_check(&action);
    assert!(matches!(result, SafetyResult::RequiresConfirmation { .. }));
}

#[test]
fn test_safety_config_push_exactly_100_approved() {
    let mut action = safe_action(ActionType::ConfigPush);
    action.affected_instance_count = 100;
    let result = eng().safety_check(&action);
    assert_eq!(result, SafetyResult::Approved);
}

#[test]
fn test_safety_teardown_standby_confirmed_approved() {
    let mut action = safe_action(ActionType::Teardown);
    action.is_primary_teardown = true;
    action.standby_confirmed_active = true;
    action.has_audit_log_entry = true;
    let result = eng().safety_check(&action);
    assert_eq!(result, SafetyResult::Approved);
}

// ─── Response synthesis ─────────────────────────────────────────────────────

#[test]
fn test_synthesize_empty() {
    let r = eng().synthesize_response(vec![]);
    assert!(r.contains("No results"));
}

#[test]
fn test_synthesize_fleet_status() {
    let results = vec![SpecialistResult::FleetStatusResult {
        summary: "All pairs healthy.".to_string(),
        active_pairs: 847,
    }];
    let r = eng().synthesize_response(results);
    assert!(r.contains("[CMD]"));
    assert!(r.contains("847"));
}

#[test]
fn test_synthesize_multiple_results() {
    let results = vec![
        SpecialistResult::FleetStatusResult { summary: "Nominal.".to_string(), active_pairs: 100 },
        SpecialistResult::CostResult { summary: "$492/month recoverable.".to_string() },
    ];
    let r = eng().synthesize_response(results);
    assert!(r.contains("[CMD]"));
    assert!(r.contains("[Ledger]"));
}

#[test]
fn test_synthesize_provision_result() {
    let results = vec![SpecialistResult::ProvisionResult {
        success_count: 20,
        failed_count: 0,
        summary: "All pairs ACTIVE.".to_string(),
    }];
    let r = eng().synthesize_response(results);
    assert!(r.contains("20/20"));
}

#[test]
fn test_safety_rules_default_values() {
    let rules = SafetyRules::default();
    assert_eq!(rules.max_affected_users_without_confirm, 10);
    assert_eq!(f64::from(rules.max_cost_spike_percent), 20.0);
    assert!(rules.require_standby_before_teardown);
    assert_eq!(rules.max_instances_direct_config_push, 100);
    assert!(rules.require_audit_before_delete);
}

// ─── Exact values ───────────────────────────────────────────────────────────

#[test]
fn commander_exact_reply_lines() {
    let results = vec![
        SpecialistResult::HealthResult { summary: "ok".to_string(), degraded: 2, failed: 1 },
        SpecialistResult::OptimizationResult { optimization_count: 3, summary: "s".to_string() },
        SpecialistResult::ProvisionResult { success_count: 18, failed_count: 2, summary: "x".to_string() },
    ];
    let r = eng().synthesize_response(results);
    assert_eq!(
        r,
        "[CMD] Health: 2 degraded, 1 failed. ok\n[Ledger] 3 optimisation(s) recommended. s\n[CMD] Provisioned 18/20 pairs. x"
    );
    assert_eq!(eng().synthesize_response(vec![]), "[CMD] No results from specialists.");
}

#[test]
fn commander_exact_routing_tasks() {
    let e = eng();
    match e.route_to_specialist(&OperatorIntent::ProvisionRequest { count: 3, tier_hint: None }) {
        SpecialistAction::SpawnForge { task } => assert_eq!(task, "Provision 3 pairs (tier: standard)"),
        other => panic!("got {:?}", other),
    }
    match e.route_to_specialist(&OperatorIntent::HealthQuery {
        scope: HealthScope::Instance { instance_id: "i-\"7\"".to_string() },
    }) {
        SpecialistAction::SendToGuardian { task } => {
            assert_eq!(task, "Run health sweep: Instance { instance_id: \"i-\\\"7\\\"\" }")
        }
        other => panic!("got {:?}", other),
    }
    match e.route_to_specialist(&OperatorIntent::ConfigPush { instance_count_hint: Some(847) }) {
        SpecialistAction::HandleDirectly { task } => {
            assert_eq!(task, "Config push to 847 instances — requires rolling push (>100)")
        }
        other => panic!("got {:?}", other),
    }
    match e.route_to_specialist(&OperatorIntent::BulkOperation { operation: "restart".to_string(), instance_count: 12 }) {
        SpecialistAction::SendToGuardian { task } => assert_eq!(task, "Bulk restart across 12 instances"),
        other => panic!("got {:?}", other),
    }
}

#[test]
fn commander_exact_safety_messages() {
    let mut a = safe_action(ActionType::ConfigPush);
    a.affected_instance_count = 150;
    assert_eq!(
        eng().safety_check(&a),
        SafetyResult::Blocked {
            reason: "SAFETY: Config push to 150 instances requires rolling validation (max direct: 100)".to_string()
        }
    );
    let mut b = safe_action(ActionType::Provision);
    b.affected_users = 11;
    assert_eq!(
        eng().safety_check(&b),
        SafetyResult::RequiresConfirmation {
            reason: "Action affects 11 users — explicit confirmation required (threshold: 10)".to_string()
        }
    );
    // An unconfirmed primary teardown is blocked even with many users and no audit entry.
    let mut c = safe_action(ActionType::Teardown);
    c.is_primary_teardown = true;
    c.standby_confirmed_active = false;
    c.has_audit_log_entry = false;
    c.affected_users = 500;
    assert_eq!(
        eng().safety_check(&c),
        SafetyResult::Blocked {
            reason: "SAFETY: Cannot teardown ACTIVE PRIMARY — standby is not confirmed ACTIVE".to_string()
        }
    );
}

#[test]
fn commander_parse_details() {
    let e = eng();
    // Lower-casing happens before matching; the first u32 word is the count;
    // "provision" itself contains "pro", which is checked before "nano".
    assert_eq!(
        e.parse_intent("PROVISION +7 NANO boxes"),
        OperatorIntent::ProvisionRequest { count: 7, tier_hint: Some("pro".to_string()) }
    );
    assert_eq!(
        e.parse_intent("create 2 enterprise accounts"),
        OperatorIntent::ProvisionRequest { count: 2, tier_hint: Some("enterprise".to_string()) }
    );
    assert_eq!(
        e.parse_intent("delete 4294967296 then 3 boxes"),
        OperatorIntent::TeardownRequest { scope: TeardownScope::Custom { count: 3 } }
    );
    assert_eq!(
        e.parse_intent("bulk restart please"),
        OperatorIntent::BulkOperation { operation: "restart".to_string(), instance_count: 0 }
    );
    assert_eq!(
        e.parse_intent("Forecast the cost"),
        OperatorIntent::CostQuery { detail: CostQueryDetail::Projection }
    );
    assert_eq!(e.parse_intent("Hi"), OperatorIntent::Unknown { raw_message: "Hi".to_string() });
    let custom = CommanderEngine::with_safety_rules(SafetyRules {
        max_affected_users_without_confirm: 1,
        max_cost_spike_percent: 5,
        require_standby_before_teardown: false,
        max_instances_direct_config_push: 10,
        require_audit_before_delete: false,
    });
    let mut a = safe_action(ActionType::Teardown);
    a.is_primary_teardown = true;
    a.standby_confirmed_active = false;
    a.has_audit_log_entry = false;
    a.affected_users = 1;
    assert_eq!(custom.safety_check(&a), SafetyResult::Approved);
}
