use clawops::proto::{InstanceRole, InstanceState};
use clawops::safety::{
    guard_config_push_batch, guard_delete_requires_audit, guard_teardown_primary, guard_user_count,
};

/// Guard: cost spike above 20% requires explicit operator confirmation.
fn guard_cost_spike(previous_cost: f64, new_cost: f64, confirmed: bool) -> Result<(), String> {
    if previous_cost <= 0.0 {
        return Ok(());
    }
    let change_pct = (new_cost - previous_cost) / previous_cost * 100.0;
    if change_pct > 20.0 && !confirmed {
        return Err(format!(
            "SAFETY: cost spike of {change_pct:.1}% (${previous_cost:.2} → ${new_cost:.2}) requires operator confirmation"
        ));
    }
    Ok(())
}

#[test]
fn test_cannot_teardown_active_primary_without_standby() {
    let result = guard_teardown_primary(InstanceRole::Primary, InstanceState::Active, None);
    assert!(result.is_err(), "teardown without standby must be blocked");
    let msg = result.unwrap_err();
    assert!(msg.contains("SAFETY"), "error must cite safety rule");
    assert!(msg.contains("no standby"), "error must mention missing standby");
}

#[test]
fn test_cannot_teardown_active_primary_with_degraded_standby() {
    let result = guard_teardown_primary(
        InstanceRole::Primary,
        InstanceState::Active,
        Some(InstanceState::Degraded),
    );
    assert!(result.is_err(), "teardown with degraded standby must be blocked");
    let msg = result.unwrap_err();
    assert!(msg.contains("Degraded"), "error must indicate standby state");
}

#[test]
fn test_teardown_allowed_when_standby_is_active() {
    let result = guard_teardown_primary(
        InstanceRole::Primary,
        InstanceState::Active,
        Some(InstanceState::Active),
    );
    assert!(result.is_ok(), "teardown with active standby must be allowed");
}

#[test]
fn test_teardown_standby_never_blocked() {
    let result = guard_teardown_primary(InstanceRole::Standby, InstanceState::Active, None);
    assert!(result.is_ok(), "standby teardown is always allowed by this guard");
}

#[test]
fn test_cannot_push_config_to_over_100_without_rolling() {
    let result = guard_config_push_batch(101, false);
    assert!(result.is_err(), "push to 101 without rolling must be blocked");
    let msg = result.unwrap_err();
    assert!(msg.contains("SAFETY"), "error must cite safety rule");
    assert!(msg.contains("101"), "error must include instance count");
    assert!(msg.contains("rolling"), "error must mention rolling requirement");
}

#[test]
fn test_config_push_exactly_100_allowed_without_rolling() {
    let result = guard_config_push_batch(100, false);
    assert!(result.is_ok(), "push to exactly 100 must be allowed");
    assert_eq!(result.unwrap(), 100);
}

#[test]
fn test_config_push_over_100_allowed_with_rolling() {
    let result = guard_config_push_batch(500, true);
    assert!(result.is_ok(), "push to 500 with rolling must be allowed");
    assert_eq!(result.unwrap(), 500);
}

#[test]
fn test_config_push_rolling_batch_limit() {
    assert!(guard_config_push_batch(101, false).is_err(), "batch of 101 exceeds the 100-instance limit");
    assert!(guard_config_push_batch(50, false).is_ok(), "batch of 50 is within safe limit");
    assert!(guard_config_push_batch(100, false).is_ok(), "batch of 100 is exactly at the limit");
}

#[test]
fn test_cannot_delete_provider_without_audit_log() {
    let result = guard_delete_requires_audit(false, "i-abc123");
    assert!(result.is_err(), "delete without audit log must be blocked");
    let msg = result.unwrap_err();
    assert!(msg.contains("SAFETY"), "error must cite safety rule");
    assert!(msg.contains("i-abc123"), "error must name the resource");
}

#[test]
fn test_delete_allowed_with_audit_log_entry() {
    let result = guard_delete_requires_audit(true, "i-abc123");
    assert!(result.is_ok(), "delete with audit log must be allowed");
}

#[test]
fn test_cost_spike_over_20_percent_requires_confirmation() {
    let result = guard_cost_spike(1000.0, 1250.0, false);
    assert!(result.is_err(), "25% cost spike without confirmation must be blocked");
    let msg = result.unwrap_err();
    assert!(msg.contains("SAFETY"), "error must cite safety rule");
    assert!(msg.contains("25.0%"), "error must include spike percentage");
}

#[test]
fn test_cost_spike_exactly_20_percent_is_allowed() {
    let result = guard_cost_spike(1000.0, 1200.0, false);
    assert!(result.is_ok(), "exactly 20% increase should be allowed");
}

#[test]
fn test_cost_spike_over_20_percent_allowed_with_confirmation() {
    let result = guard_cost_spike(1000.0, 1250.0, true);
    assert!(result.is_ok(), "spike with confirmation must be allowed");
}

#[test]
fn test_cost_decrease_always_allowed() {
    let result = guard_cost_spike(1000.0, 800.0, false);
    assert!(result.is_ok(), "cost decrease must always be allowed");
}

#[test]
fn test_actions_affecting_over_10_users_require_confirmation() {
    let result = guard_user_count(11, false);
    assert!(result.is_err(), "action affecting 11 users without confirmation must be blocked");
    let msg = result.unwrap_err();
    assert!(msg.contains("SAFETY"), "error must cite safety rule");
    assert!(msg.contains("11"), "error must include user count");
}

#[test]
fn test_actions_affecting_exactly_10_users_allowed() {
    let result = guard_user_count(10, false);
    assert!(result.is_ok(), "10 users must not require confirmation");
    assert_eq!(result.unwrap(), 10);
}

#[test]
fn test_actions_affecting_over_10_users_allowed_with_confirmation() {
    let result = guard_user_count(50, true);
    assert!(result.is_ok(), "confirmed bulk action must be allowed");
    assert_eq!(result.unwrap(), 50);
}

#[test]
fn guard_messages_are_exact() {
    assert_eq!(
        guard_teardown_primary(InstanceRole::Primary, InstanceState::Active, Some(InstanceState::Failed)).unwrap_err(),
        "SAFETY: cannot teardown active primary — standby is Failed, not Active"
    );
    assert_eq!(
        guard_config_push_batch(847, false).unwrap_err(),
        "SAFETY: config push to 847 instances requires rolling=true"
    );
    assert_eq!(
        guard_delete_requires_audit(false, "i-9").unwrap_err(),
        "SAFETY: provider delete of 'i-9' requires audit log entry first"
    );
    assert_eq!(
        guard_user_count(12, false).unwrap_err(),
        "SAFETY: operation affects 12 users (> 10) — requires explicit confirmation"
    );
    // A degraded primary is not an active primary: no restriction.
    assert!(guard_teardown_primary(InstanceRole::Primary, InstanceState::Degraded, None).is_ok());
}
