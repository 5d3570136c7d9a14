use clawops::audit::{AgentId, AuditAction, TargetType};
use clawops::audit_chain::{AuditLogger, AuditResult};

fn ok_result(msg: &str) -> AuditResult {
    AuditResult { success: true, message: msg.to_string(), details: None }
}

#[test]
fn test_audit_append_and_query() {
    let mut logger = AuditLogger::new(vec![]);
    logger.append(
        AgentId::Forge,
        AuditAction::ProvisionPrimary,
        TargetType::Instance,
        "i-test",
        "{\"account_id\":\"acc-1\"}".to_string(),
        ok_result("provisioned"),
        None,
        None,
    );
    let records = logger.query(Some("acc-1"), None, None, None, 10);
    assert_eq!(records.len(), 1);
}

#[test]
fn test_chain_integrity() {
    let mut logger = AuditLogger::new(vec![]);
    for i in 0..5 {
        logger.append(
            AgentId::System,
            AuditAction::AgentSpawned,
            TargetType::Agent,
            &format!("agent-{i}"),
            "{}".to_string(),
            ok_result("ok"),
            None,
            None,
        );
    }
    assert!(logger.verify_chain());
}

#[test]
fn test_audit_persistence() {
    let mut logger = AuditLogger::new(vec![]);
    let hash1 = logger.append(
        AgentId::Commander,
        AuditAction::TeardownInstance,
        TargetType::Instance,
        "i-old",
        "{\"reason\":\"idle\"}".to_string(),
        ok_result("torn down"),
        None,
        Some("CONF-123".to_string()),
    );
    // Reloaded from its records, the trail continues from the last hash.
    let mut logger2 = AuditLogger::new(logger.snapshot().clone());
    assert_eq!(logger2.snapshot().len(), 1);
    logger2.append(AgentId::System, AuditAction::AgentSpawned, TargetType::Agent, "a", "{}".to_string(), ok_result("ok"), None, None);
    assert_eq!(logger2.snapshot()[1].previous_hash, hash1);
}

#[test]
fn audit_chain_exact_hashes() {
    let mut logger = AuditLogger::new(vec![]);
    let h1 = logger.append_at(
        "r1".to_string(),
        0,
        AgentId::System,
        AuditAction::AgentSpawned,
        TargetType::Agent,
        "agent-0",
        "{}".to_string(),
        ok_result("ok"),
        None,
        None,
    );
    assert_eq!(h1, "d5c2ac86e824c231bdbaead590657efd55a6da676f1ba6b38b4f9fad3e70a2fe");
    let h2 = logger.append_at(
        "r2".to_string(),
        1_500_000_000,
        AgentId::Commander,
        AuditAction::TeardownInstance,
        TargetType::Instance,
        "i-old",
        "{\"reason\":\"idle\"}".to_string(),
        ok_result("torn down"),
        None,
        Some("CONF-123".to_string()),
    );
    assert_eq!(h2, "b5ad6fbea1dde229206789e714443691980696985e7ccdd6fde188964fa33be2");
    assert!(logger.verify_chain());
    let newest: Vec<&str> = logger.query(None, None, None, None, 10).iter().map(|r| r.record_id.as_str()).collect();
    assert_eq!(newest, vec!["r2", "r1"]);
    assert_eq!(logger.query(None, Some("i-old"), Some(AgentId::Commander), None, 10).len(), 1);
    assert_eq!(logger.query(None, None, None, Some(AuditAction::PushConfig), 10).len(), 0);
    assert_eq!(logger.query(None, None, None, None, 1).len(), 1);
}

#[test]
fn audit_chain_detects_broken_links() {
    let mut logger = AuditLogger::new(vec![]);
    logger.append_at("a".to_string(), 10, AgentId::Guardian, AuditAction::TriggerFailover, TargetType::Pair, "p", "{}".to_string(), ok_result("x"), None, None);
    logger.append_at("b".to_string(), 20, AgentId::Guardian, AuditAction::PromoteStandby, TargetType::Pair, "p", "{}".to_string(), ok_result("y"), None, None);
    let mut records = logger.snapshot().clone();
    assert!(AuditLogger::new(records.clone()).verify_chain());
    records[1].previous_hash = "0".repeat(64);
    assert!(!AuditLogger::new(records.clone()).verify_chain());
    // A record appended with an earlier time sorts first and breaks the links.
    let mut late = AuditLogger::new(vec![]);
    late.append_at("x".to_string(), 50, AgentId::System, AuditAction::AgentSpawned, TargetType::Agent, "a", "{}".to_string(), ok_result("x"), None, None);
    late.append_at("y".to_string(), 40, AgentId::System, AuditAction::AgentSpawned, TargetType::Agent, "a", "{}".to_string(), ok_result("y"), None, None);
    assert!(!late.verify_chain());
}

#[test]
fn audit_chain_detects_altered_content() {
    let mut logger = AuditLogger::new(vec![]);
    logger.append_at("a".to_string(), 10, AgentId::Guardian, AuditAction::TriggerFailover, TargetType::Pair, "p", "{}".to_string(), ok_result("x"), None, None);
    logger.append_at("b".to_string(), 20, AgentId::Guardian, AuditAction::PromoteStandby, TargetType::Pair, "p", "{}".to_string(), ok_result("y"), None, None);
    let mut records = logger.snapshot().clone();
    records[0].target_id = "tampered-target".to_string();
    assert!(!AuditLogger::new(records.clone()).verify_chain());
    let mut records = logger.snapshot().clone();
    records[1].parameters = "{\"x\":1}".to_string();
    assert!(!AuditLogger::new(records).verify_chain());
}

#[test]
fn audit_append_records_its_arguments() {
    let mut logger = AuditLogger::new(vec![]);
    let h = logger.append(AgentId::Commander, AuditAction::TeardownInstance, TargetType::Instance, "i-9", "{\"k\":2}".to_string(), ok_result("done"), Some("c-1".to_string()), Some("OK".to_string()));
    let r = &logger.snapshot()[0];
    assert_eq!(r.target_id, "i-9");
    assert_eq!(r.parameters, "{\"k\":2}");
    assert_eq!(r.correlation_id.as_deref(), Some("c-1"));
    assert_eq!(r.operator_confirmation.as_deref(), Some("OK"));
    assert_eq!(r.record_hash, h);
    assert_eq!(r.record_id.len(), 36);
    assert_eq!(&r.record_id[14..15], "4");
    assert!(logger.verify_chain());
}
