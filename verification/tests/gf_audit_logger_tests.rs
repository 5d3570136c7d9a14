use clawops::gf_audit::{fleet_target, instance_target, AgentId, AuditAction, AuditFilter, AuditLogger};

#[test]
fn logged_actions_chain_by_hash() {
    let mut logger = AuditLogger::new("https://gf.example".to_string(), "key".to_string());
    let first = logger.log_action_at(
        AgentId::Guardian,
        AuditAction::DockerRestartOpenClaw,
        instance_target("inst-001", "acct-xyz", "hetzner"),
        "{\"container\":\"openclaw\"}".to_string(),
        None,
        "id-1".to_string(),
        "corr-1".to_string(),
        100,
    );
    assert_eq!(first.record_hash, "id-1");
    assert_eq!(first.previous_hash, None);
    assert_eq!(first.correlation_id, "corr-1");
    let second = logger.log_action_at(
        AgentId::Commander,
        AuditAction::TriggerFailover,
        fleet_target(),
        "{}".to_string(),
        Some("corr-x".to_string()),
        "id-2".to_string(),
        "unused".to_string(),
        200,
    );
    assert_eq!(second.previous_hash, Some("id-1".to_string()));
    assert_eq!(second.correlation_id, "corr-x");
    let third = logger.log_action(AgentId::System, AuditAction::PushConfig, fleet_target(), "{}".to_string(), None);
    assert_eq!(third.previous_hash, Some("id-2".to_string()));
    assert_eq!(third.record_hash, third.record_id);
    assert_eq!(third.record_id.len(), 36);
    let none = logger
        .query(AuditFilter {
            account_id: None,
            instance_id: None,
            agent: None,
            action: None,
            from: None,
            to: None,
            limit: Some(10),
        })
        .expect("query");
    assert!(none.is_empty());
}
