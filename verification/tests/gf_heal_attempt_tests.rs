use clawops::gf_health::{AutoHealEngine, HealEvent, HealOutcome, HealthThresholds, PairInfo};
use clawops::gf_proto::InstanceRole;

fn pair(role: InstanceRole) -> PairInfo {
    PairInfo {
        primary_instance_id: "p-1".to_string(),
        standby_instance_id: Some("s-1".to_string()),
        role,
        account_id: "acct".to_string(),
    }
}

#[test]
fn heal_attempt_primary_fails_over() {
    let engine = AutoHealEngine::new(HealthThresholds::default());
    let events = vec![
        HealEvent::HealthScore(Ok(40)),
        HealEvent::DockerRestart(Ok(())),
        HealEvent::HttpStatus(Ok(503)),
        HealEvent::StandbyActive(true),
    ];
    let a = engine.heal_attempt("att-1".to_string(), "p-1", 1000, &pair(InstanceRole::Primary), events).unwrap();
    assert_eq!(a.instance_id, "p-1");
    assert_eq!(a.outcome, HealOutcome::FailoverTriggered);
    let numbers: Vec<u8> = a.steps.iter().map(|s| s.step_number).collect();
    assert_eq!(numbers, vec![1, 2, 3, 4, 5]);
}

#[test]
fn heal_attempt_recovered_and_unfinished() {
    let engine = AutoHealEngine::new(HealthThresholds::default());
    let a = engine
        .heal_attempt("att-2".to_string(), "s-1", 5, &pair(InstanceRole::Standby), vec![HealEvent::HealthScore(Ok(90))])
        .unwrap();
    assert_eq!(a.outcome, HealOutcome::Healed);
    assert_eq!(a.steps.len(), 1);
    let none = engine.heal_attempt(
        "att-3".to_string(),
        "s-1",
        5,
        &pair(InstanceRole::Standby),
        vec![HealEvent::HealthScore(Ok(10))],
    );
    assert!(none.is_none());
    let esc = engine
        .heal_attempt(
            "att-4".to_string(),
            "s-1",
            5,
            &pair(InstanceRole::Standby),
            vec![HealEvent::HealthScore(Err("x".to_string())), HealEvent::DockerRestart(Ok(())), HealEvent::HttpStatus(Ok(500))],
        )
        .unwrap();
    assert_eq!(esc.outcome, HealOutcome::EscalatedToCommander);
    let numbers: Vec<u8> = esc.steps.iter().map(|s| s.step_number).collect();
    assert_eq!(numbers, vec![1, 2, 3, 4]);
}
