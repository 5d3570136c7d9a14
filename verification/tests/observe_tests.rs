use clawops::observe::{Counter, MetricsExporter, OperationsMetrics};
use std::sync::Arc;

#[test]
fn test_operations_metrics_counters() {
    let mut m = OperationsMetrics::new();
    assert_eq!(m.provision_total.get(), 0);

    m.record_provision_attempt();
    m.record_provision_attempt();
    assert_eq!(m.provision_total.get(), 2);

    m.record_provision_error();
    assert_eq!(m.provision_errors.get(), 1);

    m.record_heal_attempt();
    m.record_heal_success();
    assert_eq!(m.heals_attempted.get(), 1);
    assert_eq!(m.heals_succeeded.get(), 1);

    m.record_failover();
    assert_eq!(m.failovers_triggered.get(), 1);
}

#[test]
fn test_metrics_exporter_prometheus_format() {
    let mut metrics = OperationsMetrics::new();
    metrics.record_provision_attempt();
    metrics.record_provision_attempt();
    metrics.record_provision_error();

    let exporter = MetricsExporter::new(Arc::new(metrics));
    let output = exporter.render();

    assert!(output.contains("# HELP clawops_provision_total"), "must have HELP line");
    assert!(output.contains("# TYPE clawops_provision_total counter"), "must have TYPE line");
    assert!(output.contains("clawops_provision_total 2"), "must have correct count");
    assert!(output.contains("clawops_provision_errors 1"), "must have error count");
    assert!(output.contains("clawops_failovers_triggered 0"), "zero counters must appear");
}

#[test]
fn test_metrics_exporter_custom_prefix() {
    let metrics = Arc::new(OperationsMetrics::new());
    let exporter = MetricsExporter::with_prefix(metrics, "myapp");
    let output = exporter.render();
    assert!(output.contains("myapp_provision_total"), "custom prefix must be used");
    assert!(!output.contains("clawops_provision_total"), "default prefix must not appear");
}

#[test]
fn counter_increments_and_other_counters_stay() {
    let mut c = Counter::default();
    c.inc();
    c.inc();
    c.inc();
    assert_eq!(c.get(), 3);
    let mut m = OperationsMetrics::new();
    m.record_health_check();
    m.record_config_push();
    m.record_config_push_error();
    m.record_provider_call();
    m.record_provider_call();
    m.record_provider_error();
    assert_eq!(m.health_checks_total.get(), 1);
    assert_eq!(m.config_pushes_total.get(), 1);
    assert_eq!(m.config_push_errors.get(), 1);
    assert_eq!(m.provider_api_calls_total.get(), 2);
    assert_eq!(m.provider_api_errors.get(), 1);
    assert_eq!(m.provision_total.get(), 0);
    assert_eq!(m.cost_reports_total.get(), 0);
}

#[test]
fn render_exact_first_block_and_size() {
    let mut metrics = OperationsMetrics::new();
    for _ in 0..12 {
        metrics.record_provider_call();
    }
    let out = MetricsExporter::with_prefix(Arc::new(metrics), "p").render();
    assert!(out.starts_with(
        "# HELP p_provision_total Total VPS provision attempts\n# TYPE p_provision_total counter\np_provision_total 0\n\n"
    ));
    assert!(out.contains("p_provider_api_calls_total 12\n"));
    assert!(out.ends_with(
        "# HELP p_provider_api_errors Total provider API errors including timeouts\n# TYPE p_provider_api_errors counter\np_provider_api_errors 0\n\n"
    ));
    assert_eq!(out.matches("# HELP ").count(), 12);
}

// ─── AuditLogger ────────────────────────────────────────────────────────────

use clawops::observe::{AuditLogger, OperationKind, OperationOutcome};
use std::collections::HashMap;

#[test]
fn test_audit_logger_log_and_query() {
    let mut logger = AuditLogger::new(100);
    logger.log(
        "commander",
        OperationKind::Provision,
        Some("i-test-1"),
        OperationOutcome::Success,
        Some(1500),
        HashMap::from([("provider".to_string(), "hetzner".to_string())]),
    );
    logger.log("forge", OperationKind::Provision, Some("i-test-2"), OperationOutcome::Failure, Some(300), HashMap::new());
    assert_eq!(logger.count(), 2);
    let all = logger.query(None, None, 10);
    assert_eq!(all.len(), 2);
    let successes = logger.query(None, Some("commander"), 10);
    assert_eq!(successes.len(), 1);
    assert_eq!(successes[0].outcome, OperationOutcome::Success);
    let provisions = logger.query(Some(OperationKind::Provision), None, 10);
    assert_eq!(provisions.len(), 2);
}

#[test]
fn test_audit_logger_evicts_old_entries() {
    let mut logger = AuditLogger::new(5); // tiny capacity
    for i in 0..10 {
        logger.log("system", OperationKind::HealthCheck, Some(&format!("i-{i}")), OperationOutcome::Success, None, HashMap::new());
    }
    // Should retain only the most recent 5
    assert_eq!(logger.count(), 5, "logger must evict old entries over max_entries");
}

#[test]
fn test_audit_logger_blocked_by_safety_logged() {
    let mut logger = AuditLogger::new(100);
    logger.log(
        "forge",
        OperationKind::Teardown,
        Some("i-primary-1"),
        OperationOutcome::BlockedBySafety,
        None,
        HashMap::from([("reason".to_string(), "standby not active".to_string())]),
    );
    let blocked = logger.query(None, None, 1);
    assert_eq!(blocked[0].outcome, OperationOutcome::BlockedBySafety);
    assert_eq!(blocked[0].details["reason"], "standby not active");
}

#[test]
fn audit_logger_order_limit_and_eviction() {
    let mut logger = AuditLogger::new(3);
    for i in 0..5i64 {
        logger.log_at(
            format!("id-{i}"),
            i,
            if i % 2 == 0 { "a" } else { "b" },
            OperationKind::ConfigPush,
            None,
            OperationOutcome::Success,
            None,
            HashMap::new(),
        );
    }
    // Entries 2, 3, 4 remain; newest first.
    let all = logger.query(None, None, 10);
    let ids: Vec<&str> = all.iter().map(|e| e.id.as_str()).collect();
    assert_eq!(ids, vec!["id-4", "id-3", "id-2"]);
    let a = logger.query(None, Some("a"), 1);
    assert_eq!(a.len(), 1);
    assert_eq!(a[0].id, "id-4");
    assert_eq!(logger.query(Some(OperationKind::Provision), None, 10).len(), 0);
    let mut zero = AuditLogger::new(0);
    zero.log("x", OperationKind::Failover, None, OperationOutcome::Failure, None, HashMap::new());
    assert_eq!(zero.count(), 0);
    assert_eq!(AuditLogger::default_capacity().count(), 0);
}
