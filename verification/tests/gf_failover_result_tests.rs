use clawops::gf_failover::{FailoverEngine, FailoverRequest, FailoverStepType, FailoverTrigger};

fn req() -> FailoverRequest {
    FailoverRequest {
        request_id: "req-1".to_string(),
        account_id: "acct".to_string(),
        failed_instance_id: "p-1".to_string(),
        standby_instance_id: "s-1".to_string(),
        trigger_reason: FailoverTrigger::AutoHeal,
        triggered_by: "guardian".to_string(),
        triggered_at: 1_000,
    }
}

#[test]
fn failover_result_aborts_on_unconfirmed_standby() {
    let engine = FailoverEngine::new("https://api".to_string(), "k".to_string());
    let r = engine.failover_result(&req(), vec![Err("down".to_string()), Ok(())], 2_000);
    assert_eq!(r.unwrap().unwrap_err(), "Failover aborted: standby s-1 is not ACTIVE");
}

#[test]
fn failover_result_completes() {
    let engine = FailoverEngine::new("https://api".to_string(), "k".to_string());
    let r = engine
        .failover_result(&req(), vec![Ok(()), Ok(()), Ok(()), Err("q".to_string())], 4_500)
        .unwrap()
        .unwrap();
    assert_eq!(r.request_id, "req-1");
    assert_eq!(r.failed_instance_id, "p-1");
    assert_eq!(r.new_primary_instance_id, "s-1");
    assert!(r.success);
    assert!(!r.reprovisioning_scheduled);
    assert_eq!(r.promotion_duration_ms, 3_500);
    assert_eq!(r.steps.len(), 5);
    assert_eq!(r.steps[0].step, FailoverStepType::VerifyStandby);
    assert!(r.steps[0].success);
    let partial = engine.failover_result(&req(), vec![Ok(())], 4_500);
    assert!(partial.is_none());
    let no_routing = engine
        .failover_result(&req(), vec![Ok(()), Ok(()), Err("dns".to_string()), Ok(())], 500)
        .unwrap()
        .unwrap();
    assert!(!no_routing.success);
    assert_eq!(no_routing.promotion_duration_ms, 0);
}
