//! Fleet health scoring, the auto-heal decision and the standby safety
//! precondition for failover.
//!
//! Safety rules encoded here: a failover is only ever recommended for a
//! PRIMARY, always after a standby verification step; a failing STANDBY is
//! escalated instead.

use vstd::prelude::*;
use crate::proto::{InstanceRole, InstanceState, ServiceStatus};

verus! {

// ─── Thresholds ──────────────────────────────────────────────────────────────

/// Score thresholds for health decisions.
#[derive(Debug, Clone, Copy)]
pub struct HealthThresholds {
    /// Score below this → DEGRADED.
    pub degraded_score: u8,
    /// Score below this → CRITICAL (triggers auto-heal).
    pub critical_score: u8,
    /// Minutes without heartbeat → alert.
    pub heartbeat_timeout_mins: u64,
}

impl Default for HealthThresholds {
    /// Degraded below 70, critical below 40, heartbeat timeout 5 minutes.
    fn default() -> (t: Self)
        ensures
            t.degraded_score == 70,
            t.critical_score == 40,
            t.heartbeat_timeout_mins == 5,
    {
        HealthThresholds { degraded_score: 70, critical_score: 40, heartbeat_timeout_mins: 5 }
    }
}

// ─── Alerts and actions ──────────────────────────────────────────────────────

#[derive(Debug, Clone, Copy, PartialEq, Eq, Structural)]
pub enum AlertType {
    OpenClawDown,
    DockerDown,
    HeartbeatMissing,
    DiskUsageHigh,
    CpuUsageHigh,
    MemUsageHigh,
    TailscaleDisconnected,
    HealthScoreLow,
}

/// Alert severity, ordered `Info < Warning < Critical`.
#[derive(Debug, Clone, Copy, PartialEq, Eq, Structural, PartialOrd, Ord)]
pub enum AlertSeverity {
    Info,
    Warning,
    Critical,
}

#[derive(Debug, Clone, Copy, PartialEq, Eq, Structural)]
pub enum RecommendedAction {
    NoAction,
    Monitor,
    AutoHeal,
    Failover,
    EscalateToCommander,
}

/// An alert raised from a service check (no measured value).
pub struct ServiceAlert {
    pub alert_type: AlertType,
    pub severity: AlertSeverity,
    pub message: String,
}

/// The alert kinds the service checks raise, in order: OpenClaw not
/// healthy (critical), Docker down (critical), Tailscale disconnected
/// (warning).
pub open spec fn service_alert_kinds(openclaw: ServiceStatus, docker_running: bool, tailscale_connected: bool)
    -> Seq<(AlertType, AlertSeverity)> {
    (if openclaw != ServiceStatus::Healthy { seq![(AlertType::OpenClawDown, AlertSeverity::Critical)] } else { seq![] })
        + (if !docker_running { seq![(AlertType::DockerDown, AlertSeverity::Critical)] } else { seq![] })
        + (if !tailscale_connected {
        seq![(AlertType::TailscaleDisconnected, AlertSeverity::Warning)]
    } else {
        seq![]
    })
}

/// The message of a service alert.
pub open spec fn service_alert_message(t: AlertType) -> Seq<char> {
    match t {
        AlertType::OpenClawDown => "OpenClaw gateway is not healthy"@,
        AlertType::DockerDown => "Docker daemon is not running"@,
        _ => "Tailscale VPN is disconnected"@,
    }
}

/// The alerts of the service checks; the checks on measured usage come
/// after them.
pub fn service_alerts(openclaw: ServiceStatus, docker_running: bool, tailscale_connected: bool) -> (r: Vec<ServiceAlert>)
    ensures
        r@.len() == service_alert_kinds(openclaw, docker_running, tailscale_connected).len(),
        forall|i: int| 0 <= i < r@.len() ==> {
            let k = service_alert_kinds(openclaw, docker_running, tailscale_connected)[i];
            &&& (#[trigger] r@[i]).alert_type == k.0
            &&& r@[i].severity == k.1
            &&& r@[i].message@ == service_alert_message(k.0)
        },
{
    let mut out: Vec<ServiceAlert> = Vec::new();
    let ghost kinds: Seq<(AlertType, AlertSeverity)> = seq![];
    if openclaw != ServiceStatus::Healthy {
        out.push(ServiceAlert {
            alert_type: AlertType::OpenClawDown,
            severity: AlertSeverity::Critical,
            message: crate::text::owned("OpenClaw gateway is not healthy"),
        });
        proof { kinds = kinds.push((AlertType::OpenClawDown, AlertSeverity::Critical)); }
    }
    if !docker_running {
        out.push(ServiceAlert {
            alert_type: AlertType::DockerDown,
            severity: AlertSeverity::Critical,
            message: crate::text::owned("Docker daemon is not running"),
        });
        proof { kinds = kinds.push((AlertType::DockerDown, AlertSeverity::Critical)); }
    }
    if !tailscale_connected {
        out.push(ServiceAlert {
            alert_type: AlertType::TailscaleDisconnected,
            severity: AlertSeverity::Warning,
            message: crate::text::owned("Tailscale VPN is disconnected"),
        });
        proof { kinds = kinds.push((AlertType::TailscaleDisconnected, AlertSeverity::Warning)); }
    }
    assert(kinds =~= service_alert_kinds(openclaw, docker_running, tailscale_connected));
    out
}

// ─── Health score ────────────────────────────────────────────────────────────

/// What the score is computed from: service states, and whether CPU (1-min),
/// memory and disk usage are above 90%, 85% and 85%.
#[derive(Debug, Clone, Copy)]
pub struct HealthSignals {
    pub openclaw_status: ServiceStatus,
    pub docker_running: bool,
    pub tailscale_connected: bool,
    pub cpu_above_90_pct: bool,
    pub mem_above_85_pct: bool,
    pub disk_above_85_pct: bool,
}

/// 100 minus the deductions (OpenClaw not healthy −40, Docker down −20,
/// Tailscale disconnected −15, each high resource −10), floored at 0.
pub open spec fn health_score(s: HealthSignals) -> int {
    let d = (if s.openclaw_status != ServiceStatus::Healthy { 40int } else { 0 })
        + (if !s.docker_running { 20int } else { 0 })
        + (if !s.tailscale_connected { 15int } else { 0 })
        + (if s.cpu_above_90_pct { 10int } else { 0 })
        + (if s.mem_above_85_pct { 10int } else { 0 })
        + (if s.disk_above_85_pct { 10int } else { 0 });
    if d > 100 { 0 } else { 100 - d }
}

/// Compute a 0–100 health score.
pub fn compute_health_score(s: &HealthSignals) -> (score: u8)
    ensures
        score as int == health_score(*s),
{
    let mut score: i32 = 100;
    if s.openclaw_status != ServiceStatus::Healthy {
        score = score - 40;
    }
    if !s.docker_running {
        score = score - 20;
    }
    if !s.tailscale_connected {
        score = score - 15;
    }
    if s.cpu_above_90_pct {
        score = score - 10;
    }
    if s.mem_above_85_pct {
        score = score - 10;
    }
    if s.disk_above_85_pct {
        score = score - 10;
    }
    if score < 0 {
        0
    } else {
        score as u8
    }
}

/// The action recommended for a score: none at or above the degraded
/// threshold, monitoring at or above the critical one, auto-heal at or
/// above 20, escalation below.
pub open spec fn action_for(score: u8, t: HealthThresholds) -> RecommendedAction {
    if score >= t.degraded_score {
        RecommendedAction::NoAction
    } else if score >= t.critical_score {
        RecommendedAction::Monitor
    } else if score >= 20 {
        RecommendedAction::AutoHeal
    } else {
        RecommendedAction::EscalateToCommander
    }
}

/// Determine the recommended action based on health score.
pub fn recommend_action(score: u8, thresholds: &HealthThresholds) -> (a: RecommendedAction)
    ensures
        a == action_for(score, *thresholds),
{
    if score >= thresholds.degraded_score {
        RecommendedAction::NoAction
    } else if score >= thresholds.critical_score {
        RecommendedAction::Monitor
    } else if score >= 20 {
        RecommendedAction::AutoHeal
    } else {
        RecommendedAction::EscalateToCommander
    }
}

// ─── Auto-heal decision ──────────────────────────────────────────────────────

#[derive(Debug, Clone, Copy, PartialEq, Eq, Structural)]
pub enum AutoHealStep {
    VerifiedHealth,
    DockerRestartedOpenclaw,
    WaitedForRecovery,
    VerifiedRecovery,
    CheckedPairRole,
    VerifiedStandbyActive,
    TriggeredFailover,
    EscalatedToCommander,
}

#[derive(Debug, Clone, Copy, PartialEq, Eq, Structural)]
pub enum AutoHealAction {
    Recovered,
    FailoverTriggered,
    EscalatedCritical,
    StandbyNotReady,
}

/// Result of an auto-heal attempt.
#[derive(Debug)]
pub struct AutoHealResult {
    pub instance_id: String,
    pub success: bool,
    pub steps_completed: Vec<AutoHealStep>,
    pub final_health_score: Option<u8>,
    pub action_taken: AutoHealAction,
    pub escalated: bool,
}

/// The auto-heal decision, produced without performing I/O. The caller
/// executes the steps.
pub struct AutoHealDecision {
    pub instance_id: String,
    pub role: InstanceRole,
    pub health_score: u8,
    pub openclaw_down: bool,
    pub docker_down: bool,
}

/// The steps recommended: always verify health; restart and re-verify when
/// OpenClaw or Docker is down; below a score of 40 check the role, then a
/// primary verifies its standby and fails over while a standby escalates.
pub open spec fn heal_steps(role: InstanceRole, score: u8, openclaw_down: bool, docker_down: bool) -> Seq<AutoHealStep> {
    let first = seq![AutoHealStep::VerifiedHealth];
    let restart = if openclaw_down || docker_down {
        seq![AutoHealStep::DockerRestartedOpenclaw, AutoHealStep::WaitedForRecovery, AutoHealStep::VerifiedRecovery]
    } else {
        Seq::empty()
    };
    let critical = if score < 40 {
        if role == InstanceRole::Primary {
            seq![AutoHealStep::CheckedPairRole, AutoHealStep::VerifiedStandbyActive, AutoHealStep::TriggeredFailover]
        } else {
            seq![AutoHealStep::CheckedPairRole, AutoHealStep::EscalatedToCommander]
        }
    } else {
        Seq::empty()
    };
    first + restart + critical
}

impl AutoHealDecision {
    /// The sequence of auto-heal steps to execute. The caller must verify
    /// the standby is ACTIVE before triggering failover.
    pub fn recommend(&self) -> (steps: Vec<AutoHealStep>)
        ensures
            steps@ == heal_steps(self.role, self.health_score, self.openclaw_down, self.docker_down),
    {
        let mut steps: Vec<AutoHealStep> = Vec::new();
        steps.push(AutoHealStep::VerifiedHealth);
        if self.openclaw_down || self.docker_down {
            steps.push(AutoHealStep::DockerRestartedOpenclaw);
            steps.push(AutoHealStep::WaitedForRecovery);
            steps.push(AutoHealStep::VerifiedRecovery);
        }
        if self.health_score < 40 {
            steps.push(AutoHealStep::CheckedPairRole);
            if self.role == InstanceRole::Primary {
                steps.push(AutoHealStep::VerifiedStandbyActive);
                steps.push(AutoHealStep::TriggeredFailover);
            } else {
                steps.push(AutoHealStep::EscalatedToCommander);
            }
        }
        assert(steps@ =~= heal_steps(self.role, self.health_score, self.openclaw_down, self.docker_down));
        steps
    }
}

/// A failover is recommended only for a primary with a score below 40, and
/// the standby verification step comes before it.
pub proof fn lemma_failover_only_after_standby_check(role: InstanceRole, score: u8, openclaw_down: bool, docker_down: bool, i: int)
    requires
        0 <= i < heal_steps(role, score, openclaw_down, docker_down).len(),
        heal_steps(role, score, openclaw_down, docker_down)[i] == AutoHealStep::TriggeredFailover,
    ensures
        role == InstanceRole::Primary,
        score < 40,
        i >= 1,
        heal_steps(role, score, openclaw_down, docker_down)[i - 1] == AutoHealStep::VerifiedStandbyActive,
{
}

/// A standby is never failed over; when critical it is escalated.
pub proof fn lemma_standby_never_fails_over(score: u8, openclaw_down: bool, docker_down: bool)
    ensures
        !heal_steps(InstanceRole::Standby, score, openclaw_down, docker_down).contains(AutoHealStep::TriggeredFailover),
        score < 40 ==> heal_steps(InstanceRole::Standby, score, openclaw_down, docker_down).contains(AutoHealStep::EscalatedToCommander),
{
    let s = heal_steps(InstanceRole::Standby, score, openclaw_down, docker_down);
    if score < 40 {
        assert(s[s.len() - 1] == AutoHealStep::EscalatedToCommander);
    }
}

// ─── Failover records ────────────────────────────────────────────────────────

#[derive(Debug, Clone, Copy, PartialEq, Eq, Structural)]
pub enum FailoverTrigger {
    AutoHeal,
    ProviderOutage,
    ManualByCommander,
    PlannedMaintenance,
}

#[derive(Debug, Clone, Copy, PartialEq, Eq, Structural)]
pub enum FailoverStepType {
    VerifyStandby,
    UpdatePairStatus,
    NotifyGateway,
    UpdateRouting,
    ScheduleReprovisioning,
    NotifyCommander,
}

/// One executed failover step.
#[derive(Debug)]
pub struct FailoverStepRecord {
    pub step: FailoverStepType,
    pub success: bool,
    pub duration_ms: u64,
    pub error: Option<String>,
}

/// Safety invariant: the standby must be ACTIVE before failover, so
/// that a user always has exactly one ACTIVE gateway.
pub fn verify_standby_precondition(standby_state: InstanceState) -> (ok: bool)
    ensures
        ok == (standby_state == InstanceState::Active),
{
    standby_state == InstanceState::Active
}

// ─── Fleet sweep ─────────────────────────────────────────────────────────────

/// Tallies of a fleet-wide health sweep.
#[derive(Debug, Clone, Copy)]
pub struct FleetHealthSweepResult {
    pub total_instances: u32,
    pub healthy: u32,
    pub degraded: u32,
    pub critical: u32,
    pub auto_heal_triggered: u32,
    pub failovers_triggered: u32,
    pub escalated_to_commander: u32,
    /// Unix seconds at which the sweep was made.
    pub swept_at: i64,
}

/// How many of `rs` get action `a`.
pub open spec fn count_action(rs: Seq<HealthSignals>, t: HealthThresholds, a: RecommendedAction) -> nat
    decreases rs.len(),
{
    if rs.len() == 0 {
        0
    } else {
        count_action(rs.drop_last(), t, a)
            + (if action_for(health_score(rs.last()) as u8, t) == a { 1nat } else { 0nat })
    }
}

proof fn lemma_counts_bounded(rs: Seq<HealthSignals>, t: HealthThresholds)
    ensures
        count_action(rs, t, RecommendedAction::NoAction) + count_action(rs, t, RecommendedAction::Monitor)
            + count_action(rs, t, RecommendedAction::AutoHeal)
            + count_action(rs, t, RecommendedAction::Failover)
            + count_action(rs, t, RecommendedAction::EscalateToCommander) == rs.len(),
    decreases rs.len(),
{
    if rs.len() > 0 {
        lemma_counts_bounded(rs.drop_last(), t);
    }
}

/// Classify each report by its recommended action and tally the fleet.
pub fn sweep_fleet(reports: &Vec<HealthSignals>, thresholds: &HealthThresholds, swept_at: i64) -> (r: FleetHealthSweepResult)
    requires
        reports.len() <= u32::MAX,
    ensures
        r.total_instances == reports.len(),
        r.healthy == count_action(reports@, *thresholds, RecommendedAction::NoAction),
        r.degraded == count_action(reports@, *thresholds, RecommendedAction::Monitor),
        r.auto_heal_triggered == count_action(reports@, *thresholds, RecommendedAction::AutoHeal),
        r.failovers_triggered == count_action(reports@, *thresholds, RecommendedAction::Failover),
        r.escalated_to_commander == count_action(reports@, *thresholds, RecommendedAction::EscalateToCommander),
        r.critical == r.auto_heal_triggered + r.failovers_triggered + r.escalated_to_commander,
        r.healthy + r.degraded + r.critical == r.total_instances,
        r.swept_at == swept_at,
{
    let mut r = FleetHealthSweepResult {
        total_instances: reports.len() as u32,
        healthy: 0,
        degraded: 0,
        critical: 0,
        auto_heal_triggered: 0,
        failovers_triggered: 0,
        escalated_to_commander: 0,
        swept_at,
    };
    let mut i: usize = 0;
    while i < reports.len()
        invariant
            i <= reports.len() <= u32::MAX,
            r.total_instances == reports.len(),
            r.swept_at == swept_at,
            r.healthy == count_action(reports@.take(i as int), *thresholds, RecommendedAction::NoAction),
            r.degraded == count_action(reports@.take(i as int), *thresholds, RecommendedAction::Monitor),
            r.auto_heal_triggered == count_action(reports@.take(i as int), *thresholds, RecommendedAction::AutoHeal),
            r.failovers_triggered == count_action(reports@.take(i as int), *thresholds, RecommendedAction::Failover),
            r.escalated_to_commander == count_action(reports@.take(i as int), *thresholds, RecommendedAction::EscalateToCommander),
            r.critical == r.auto_heal_triggered + r.failovers_triggered + r.escalated_to_commander,
        decreases reports.len() - i,
    {
        proof {
            lemma_counts_bounded(reports@.take(i as int), *thresholds);
            assert(reports@.take(i + 1).drop_last() =~= reports@.take(i as int));
        }
        let score = compute_health_score(&reports[i]);
        let action = recommend_action(score, thresholds);
        match action {
            RecommendedAction::NoAction => r.healthy = r.healthy + 1,
            RecommendedAction::Monitor => r.degraded = r.degraded + 1,
            RecommendedAction::AutoHeal => {
                r.critical = r.critical + 1;
                r.auto_heal_triggered = r.auto_heal_triggered + 1;
            },
            RecommendedAction::Failover => {
                r.critical = r.critical + 1;
                r.failovers_triggered = r.failovers_triggered + 1;
            },
            RecommendedAction::EscalateToCommander => {
                r.critical = r.critical + 1;
                r.escalated_to_commander = r.escalated_to_commander + 1;
            },
        }
        i = i + 1;
    }
    assert(reports@.take(reports.len() as int) =~= reports@);
    proof { lemma_counts_bounded(reports@, *thresholds); }
    r
}

/// `g` lowered by `k` points, floored at 0.
pub open spec fn lowered(g: int, k: int) -> int {
    if g >= k { g - k } else { 0 }
}

/// What each signal costs: a node with every check passing scores 100;
/// turning one signal bad, all else unchanged, lowers the score by a fixed
/// amount (floored at 0): OpenClaw not healthy 40, Docker down 20,
/// Tailscale disconnected 15, and CPU above 90%, memory above 85% or disk
/// above 85% 10 each. So a node whose only problem is memory scores 90.
pub proof fn lemma_health_score_costs(s: HealthSignals, st: ServiceStatus)
    requires
        st != ServiceStatus::Healthy,
    ensures
        health_score(HealthSignals {
            openclaw_status: ServiceStatus::Healthy,
            docker_running: true,
            tailscale_connected: true,
            cpu_above_90_pct: false,
            mem_above_85_pct: false,
            disk_above_85_pct: false,
        }) == 100,
        health_score(HealthSignals {
            openclaw_status: ServiceStatus::Healthy,
            docker_running: true,
            tailscale_connected: true,
            cpu_above_90_pct: false,
            mem_above_85_pct: true,
            disk_above_85_pct: false,
        }) == 90,
        0 <= health_score(s) <= 100,
        health_score(HealthSignals { openclaw_status: st, ..s })
            == lowered(health_score(HealthSignals { openclaw_status: ServiceStatus::Healthy, ..s }), 40),
        health_score(HealthSignals { docker_running: false, ..s })
            == lowered(health_score(HealthSignals { docker_running: true, ..s }), 20),
        health_score(HealthSignals { tailscale_connected: false, ..s })
            == lowered(health_score(HealthSignals { tailscale_connected: true, ..s }), 15),
        health_score(HealthSignals { cpu_above_90_pct: true, ..s })
            == lowered(health_score(HealthSignals { cpu_above_90_pct: false, ..s }), 10),
        health_score(HealthSignals { mem_above_85_pct: true, ..s })
            == lowered(health_score(HealthSignals { mem_above_85_pct: false, ..s }), 10),
        health_score(HealthSignals { disk_above_85_pct: true, ..s })
            == lowered(health_score(HealthSignals { disk_above_85_pct: false, ..s }), 10),
{
}

/// How severe an action is: no action, monitoring, auto-heal, failover,
/// escalation, in that order.
pub open spec fn action_rank(a: RecommendedAction) -> int {
    match a {
        RecommendedAction::NoAction => 0,
        RecommendedAction::Monitor => 1,
        RecommendedAction::AutoHeal => 2,
        RecommendedAction::Failover => 3,
        RecommendedAction::EscalateToCommander => 4,
    }
}

/// A better score never calls for a more severe action; with the default
/// thresholds (degraded below 70, critical below 40) a score of 70 or
/// more needs nothing, 40 to 69 monitoring, 20 to 39 auto-heal, and below
/// 20 the commander.
pub proof fn lemma_action_bands(a: u8, b: u8, t: HealthThresholds)
    requires
        t.critical_score <= t.degraded_score,
    ensures
        a <= b ==> action_rank(action_for(b, t)) <= action_rank(action_for(a, t)),
        t.degraded_score == 70 && t.critical_score == 40 ==> {
            &&& (a >= 70 ==> action_for(a, t) == RecommendedAction::NoAction)
            &&& (40 <= a < 70 ==> action_for(a, t) == RecommendedAction::Monitor)
            &&& (20 <= a < 40 ==> action_for(a, t) == RecommendedAction::AutoHeal)
            &&& (a < 20 ==> action_for(a, t) == RecommendedAction::EscalateToCommander)
        },
{
}

} // verus!
