use clawops::briefer::{
    format_voice_script, generate_daily_briefing, generate_daily_briefing_at,
    generate_weekly_report, generate_weekly_report_at, DailySnapshot, IncidentSummary,
};
use clawops::proto::FleetStatus;

fn make_fleet(active: u32, degraded: u32, failed: u32) -> FleetStatus {
    FleetStatus {
        total_instances: active * 2 + degraded + failed,
        active_pairs: active,
        degraded_instances: degraded,
        failed_instances: failed,
        bootstrapping_instances: 0,
        generated_at: 0,
    }
}

/// The cost line as the caller formats it from floating-point amounts.
fn cost_line(actual: f64, projected: f64, idle: u32) -> String {
    let variance = if projected == 0.0 { 0.0 } else { ((actual - projected) / projected) * 100.0 };
    let sign = if variance >= 0.0 { "+" } else { "" };
    format!(
        "Cost this period: ${:.0} vs ${:.0} projected ({}{:.1}%). {} idle accounts flagged for review.",
        actual, projected, sign, variance, idle
    )
}

fn week(degraded_peak: u32, incidents: u32, heals: u32, failovers: u32) -> Vec<DailySnapshot> {
    (0..7)
        .map(|i| DailySnapshot {
            date: format!("2026-02-{:02}", i + 1),
            active_pairs: 100,
            degraded_peak,
            failed_count: 0,
            incidents_resolved: incidents,
            auto_heals: heals,
            failovers,
        })
        .collect()
}

#[test]
fn test_generate_daily_briefing_content() {
    let fleet = make_fleet(847, 2, 1);
    let incidents = vec![IncidentSummary {
        id: "inc-1".to_string(),
        title: "Nuremberg outage".to_string(),
        resolved: true,
        affected_instances: 94,
    }];
    let briefing = generate_daily_briefing(&fleet, &cost_line(1247.0, 1190.0, 14), 14, &incidents);
    assert!(briefing.overnight_summary.contains("847 active pairs"));
    assert!(briefing.overnight_summary.contains("2 degraded"));
    assert!(briefing.overnight_summary.contains("1 failed"));
    assert!(briefing.cost_summary.contains("$1247"));
    assert!(briefing.cost_summary.contains("14 idle"));
    assert!(!briefing.actions_taken.is_empty());
}

#[test]
fn test_generate_daily_briefing_healthy_fleet() {
    let fleet = make_fleet(100, 0, 0);
    let briefing = generate_daily_briefing(&fleet, &cost_line(500.0, 500.0, 0), 0, &[]);
    assert!(briefing.overnight_summary.contains("All pairs healthy"));
    assert!(briefing.recommendations.iter().any(|r| r.contains("No SLA")));
}

#[test]
fn test_format_voice_script_contains_dispatch() {
    let fleet = make_fleet(847, 2, 1);
    let briefing = generate_daily_briefing(&fleet, &cost_line(1247.0, 1190.0, 14), 14, &[]);
    let script = format_voice_script(&briefing);
    assert!(script.starts_with("[Dispatch — 07:00 UTC]"));
    assert!(script.contains("847 active pairs"));
}

#[test]
fn test_format_voice_script_open_incidents() {
    let fleet = make_fleet(50, 1, 0);
    let incidents = vec![IncidentSummary {
        id: "inc-2".to_string(),
        title: "Vultr degraded".to_string(),
        resolved: false,
        affected_instances: 5,
    }];
    let briefing = generate_daily_briefing(&fleet, &cost_line(600.0, 600.0, 0), 0, &incidents);
    let script = format_voice_script(&briefing);
    assert!(script.contains("1 open incident"));
}

#[test]
fn test_generate_weekly_report_empty() {
    let report = generate_weekly_report(&[], false);
    let avg_active_pairs = if report.days == 0 { 0.0 } else { report.total_active_pairs as f64 / report.days as f64 };
    let total_cost_usd: f64 = 0.0;
    assert_eq!(avg_active_pairs, 0.0);
    assert_eq!(total_cost_usd, 0.0);
    assert_eq!(report.week_label, "Empty week");
    assert_eq!(report.recommendations, vec!["No data available for this week.".to_string()]);
}

#[test]
fn test_generate_weekly_report_aggregates() {
    let history = week(2, 1, 3, 1);
    let costs = [178.0f64; 7];
    let report = generate_weekly_report(&history, false);
    let total_cost_usd: f64 = costs.iter().sum();
    let avg_active_pairs = report.total_active_pairs as f64 / report.days as f64;
    let avg_daily_cost_usd = total_cost_usd / report.days as f64;
    assert_eq!(avg_active_pairs, 100.0);
    assert!((total_cost_usd - 1246.0).abs() < 0.01);
    assert!((avg_daily_cost_usd - 178.0).abs() < 0.01);
    assert_eq!(report.total_incidents, 7);
    assert_eq!(report.total_auto_heals, 21);
    assert_eq!(report.total_failovers, 7);
    assert_eq!(report.peak_degraded, 2);
}

#[test]
fn test_generate_weekly_report_high_failovers_recommendation() {
    let history = week(0, 0, 0, 2);
    let report = generate_weekly_report(&history, false);
    assert_eq!(report.total_failovers, 14);
    assert!(report.recommendations.iter().any(|r| r.contains("failovers")));
}

#[test]
fn daily_briefing_exact_fields() {
    let fleet = make_fleet(847, 2, 1);
    let incidents = vec![
        IncidentSummary { id: "a".to_string(), title: "Nuremberg outage".to_string(), resolved: true, affected_instances: 94 },
        IncidentSummary { id: "b".to_string(), title: "Vultr degraded".to_string(), resolved: false, affected_instances: 5 },
    ];
    let b = generate_daily_briefing_at(&fleet, "cost", 14, &incidents, 1234);
    assert_eq!(b.generated_at, 1234);
    assert_eq!(
        b.overnight_summary,
        "847 active pairs across 3 providers. 2 degraded (auto-healing in progress). 1 failed (failover complete)."
    );
    assert_eq!(b.actions_taken, vec!["Resolved: Nuremberg outage (94 instances affected)".to_string()]);
    assert_eq!(
        b.recommendations,
        vec![
            "Review 14 idle accounts — potential cost savings".to_string(),
            "2 degraded instances need attention".to_string(),
        ]
    );
    assert_eq!(b.incidents.len(), 2);
    assert_eq!(
        format_voice_script(&b),
        "[Dispatch — 07:00 UTC] Good morning. 847 active pairs across 3 providers. 2 degraded (auto-healing in progress). 1 failed (failover complete). cost 1 open incident(s). Details in your Drive. Review 14 idle accounts — potential cost savings 2 degraded instances need attention"
    );
}

#[test]
fn healthy_briefing_voice_script_exact() {
    let b = generate_daily_briefing_at(&make_fleet(100, 0, 0), "c", 0, &[], 0);
    assert_eq!(
        format_voice_script(&b),
        "[Dispatch — 07:00 UTC] Good morning. 100 active pairs across 3 providers. All pairs healthy overnight. c No open incidents. Full report in your Drive. No SLA breaches. Fleet nominal."
    );
}

#[test]
fn weekly_report_exact_label_and_recommendations() {
    let history = week(0, 0, 0, 2);
    let r = generate_weekly_report_at(&history, true, 99);
    assert_eq!(r.generated_at, 99);
    assert_eq!(r.week_label, "2026-02-01 → 2026-02-07");
    assert_eq!(r.total_active_pairs, 700);
    assert_eq!(
        r.recommendations,
        vec![
            "14 failovers this week — investigate provider stability".to_string(),
            "Cost variance > 15% — review anomalies".to_string(),
            "Full provider breakdown attached.".to_string(),
        ]
    );
    let quiet = generate_weekly_report_at(&week(1, 0, 0, 0), false, 0);
    assert_eq!(quiet.recommendations, vec!["Full provider breakdown attached.".to_string()]);
}
