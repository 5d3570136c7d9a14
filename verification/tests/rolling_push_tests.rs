use clawops::rolling_push::{
    validate_batch, BatchResult, BatchValidation, Instance, InstancePushResult, RollingPush, RollingPushResult,
    ValidationError,
};

fn now() -> i64 {
    chrono::Utc::now().timestamp_millis()
}

fn make_instances(n: usize) -> Vec<Instance> {
    (0..n)
        .map(|i| Instance { instance_id: format!("i-{:04}", i), account_id: format!("acc-{}", i) })
        .collect()
}

fn always_succeed(batch: &[Instance], _cfg: &str) -> Vec<InstancePushResult> {
    batch
        .iter()
        .map(|i| InstancePushResult {
            instance_id: i.instance_id.clone(),
            success: true,
            error: None,
            applied_at: Some(now()),
        })
        .collect()
}

fn always_validate_pass(batch: &[Instance]) -> BatchValidation {
    BatchValidation {
        batch_number: 0,
        instances_checked: batch.len(),
        instances_valid: batch.len(),
        instances_invalid: 0,
        errors: vec![],
        passed: true,
    }
}

fn never_rollback(_batch: &[Instance], _cfg: &str) {}

#[test]
fn test_total_batches_exact() {
    let rp = RollingPush::new("cfg-v1".to_string(), "{}".to_string(), make_instances(100), 50);
    assert_eq!(rp.total_batches(), 2);
}

#[test]
fn test_total_batches_remainder() {
    let rp = RollingPush::new("cfg-v1".to_string(), "{}".to_string(), make_instances(101), 50);
    assert_eq!(rp.total_batches(), 3);
}

#[test]
fn test_execute_all_succeed() {
    let rp = RollingPush::new(
        "cfg-v1".to_string(),
        "{\"model\":\"kimi-k2.5\"}".to_string(),
        make_instances(100),
        50,
    );
    let result = rp.execute(always_succeed, always_validate_pass, never_rollback);
    assert_eq!(result.total_batches, 2);
    assert_eq!(result.batch_results.len(), 2);
    assert_eq!(result.total_applied(), 100);
    assert_eq!(result.total_failed(), 0);
    assert_eq!(result.rollbacks_triggered, 0);
    assert!(result.overall_success);
}

#[test]
fn test_execute_batch_failure_stops() {
    let rp = RollingPush::new("cfg-v1".to_string(), "{}".to_string(), make_instances(100), 50);
    let mut batch_called = 0usize;
    let result = rp.execute(
        |batch: &[Instance], cfg: &str| always_succeed(batch, cfg),
        |batch: &[Instance]| {
            batch_called += 1;
            if batch_called == 1 {
                // First batch validation fails
                BatchValidation {
                    batch_number: 0,
                    instances_checked: batch.len(),
                    instances_valid: batch.len() - 1,
                    instances_invalid: 1,
                    errors: vec![ValidationError {
                        instance_id: "i-0000".to_string(),
                        error: "malformed config".to_string(),
                    }],
                    passed: false,
                }
            } else {
                always_validate_pass(batch)
            }
        },
        |_batch: &[Instance], _cfg: &str| {},
    );
    // Stop on first failure — only 1 batch executed
    assert_eq!(result.batch_results.len(), 1);
    assert_eq!(result.rollbacks_triggered, 1);
    assert!(!result.overall_success);
}

#[test]
fn test_execute_single_batch() {
    let rp = RollingPush::new("cfg-v1".to_string(), "{}".to_string(), make_instances(10), 50);
    let result = rp.execute(always_succeed, always_validate_pass, never_rollback);
    assert_eq!(result.total_batches, 1);
    assert_eq!(result.total_applied(), 10);
}

#[test]
fn test_execute_empty_instances() {
    let rp = RollingPush::new("cfg-v1".to_string(), "{}".to_string(), vec![], 50);
    let result = rp.execute(always_succeed, always_validate_pass, never_rollback);
    assert_eq!(result.total_applied(), 0);
    assert!(result.overall_success);
}

#[test]
fn test_batch_result_progress_line() {
    let br = BatchResult {
        batch_number: 1,
        total_batches: 17,
        instance_results: vec![
            InstancePushResult { instance_id: "i-0".to_string(), success: true, error: None, applied_at: Some(now()) },
            InstancePushResult {
                instance_id: "i-1".to_string(),
                success: false,
                error: Some("malformed config".to_string()),
                applied_at: None,
            },
        ],
        validation_passed: false,
        completed_at: now(),
    };
    let line = br.progress_line();
    assert!(line.contains("Batch 1/17"));
    assert!(line.contains("1 applied"));
    assert!(line.contains("1 config validation error"));
}

#[test]
fn test_rolling_push_result_summary_success() {
    let result = RollingPushResult {
        config_name: "cfg-v47".to_string(),
        total_instances: 847,
        batch_size: 50,
        total_batches: 17,
        batch_results: vec![],
        rollbacks_triggered: 0,
        overall_success: true,
        completed_at: now(),
    };
    let s = result.summary();
    assert!(s.contains("SUCCESS"));
    assert!(s.contains("0/847"));
}

#[test]
fn test_rolling_push_result_summary_partial() {
    let result = RollingPushResult {
        config_name: "cfg-v47".to_string(),
        total_instances: 100,
        batch_size: 50,
        total_batches: 2,
        batch_results: vec![],
        rollbacks_triggered: 1,
        overall_success: false,
        completed_at: now(),
    };
    let s = result.summary();
    assert!(s.contains("PARTIAL"));
    assert!(s.contains("1 rollbacks"));
}

#[test]
fn test_validate_batch_all_match() {
    let instances = make_instances(3);
    let cfg = "{\"model\":\"kimi-k2.5\"}".to_string();
    let actuals: Vec<Option<String>> = vec![Some(cfg.clone()), Some(cfg.clone()), Some(cfg.clone())];
    let validation = validate_batch(&instances, &cfg, &actuals);
    assert!(validation.passed);
    assert_eq!(validation.instances_valid, 3);
    assert_eq!(validation.instances_invalid, 0);
}

#[test]
fn test_validate_batch_one_mismatch() {
    let instances = make_instances(3);
    let cfg = "{\"model\":\"kimi-k2.5\"}".to_string();
    let actuals: Vec<Option<String>> =
        vec![Some(cfg.clone()), Some("{\"model\":\"old-model\"}".to_string()), Some(cfg.clone())];
    let validation = validate_batch(&instances, &cfg, &actuals);
    assert!(!validation.passed);
    assert_eq!(validation.instances_invalid, 1);
    assert_eq!(validation.errors[0].instance_id, "i-0001");
}

#[test]
fn test_validate_batch_missing_config() {
    let instances = make_instances(2);
    let cfg = "{}".to_string();
    let actuals: Vec<Option<String>> = vec![Some(cfg.clone()), None];
    let validation = validate_batch(&instances, &cfg, &actuals);
    assert!(!validation.passed);
    assert_eq!(validation.instances_invalid, 1);
    assert!(validation.errors[0].error.contains("not found"));
}

#[test]
fn test_batch_size_minimum_one() {
    let rp = RollingPush::new("cfg".to_string(), "{}".to_string(), make_instances(5), 0);
    assert_eq!(rp.batch_size, 1);
}

#[test]
fn rolling_push_batches_and_exact_lines() {
    let rp = RollingPush::new("cfg".to_string(), "{}".to_string(), make_instances(7), 3);
    let mut run = rp.start();
    assert_eq!(rp.next_batch(&run), Some((0, 3)));
    assert!(!rp.record_batch(&mut run, always_succeed(&rp.instances[0..3], ""), true, 1));
    assert_eq!(rp.next_batch(&run), Some((3, 6)));
    assert!(!rp.record_batch(&mut run, always_succeed(&rp.instances[3..6], ""), true, 2));
    assert_eq!(rp.next_batch(&run), Some((6, 7)));
    let mut last = always_succeed(&rp.instances[6..7], "");
    last[0].success = false;
    assert!(rp.record_batch(&mut run, last, false, 3));
    assert_eq!(rp.next_batch(&run), None);
    let result = rp.finish(run, 4);
    assert_eq!(result.batch_results[2].progress_line(), "Batch 3/3 (1 instances): 0 applied, 1 config validation error(s).");
    assert_eq!(result.summary(), "Rolling push complete: 6/7 applied, 1 failed, 1 rollbacks. PARTIAL — manual review required.");
    // Without stopping on failure, every batch runs.
    let mut rp2 = RollingPush::new("cfg".to_string(), "{}".to_string(), make_instances(4), 2);
    rp2.stop_on_validation_failure = false;
    let mut run2 = rp2.start();
    assert!(rp2.record_batch(&mut run2, vec![], false, 0));
    assert_eq!(rp2.next_batch(&run2), Some((2, 4)));
}
