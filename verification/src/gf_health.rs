//! Guardian's health decisions: the health score of a full report and the
//! six-step auto-heal sequence, as a state machine. The caller performs each
//! requested check or action and feeds its outcome back; the machine decides
//! the next step and records what was done.
//!
//! Safety rules: a failover is only triggered for a PRIMARY whose STANDBY was
//! just confirmed ACTIVE; a failing STANDBY is escalated, never failed over;
//! the standby verification step is never skipped.

use vstd::prelude::*;
use crate::text::{decimal, owned, push_decimal, push_str};
use crate::gf_proto::{InstanceRole, ServiceStatus};

verus! {

// ─── Thresholds ──────────────────────────────────────────────────────────────

/// Score thresholds for heal decisions.
#[derive(Debug, Clone, Copy)]
pub struct HealthThresholds {
    /// Below this score → trigger auto-heal sequence.
    pub heal_trigger_score: u8,
    /// Above this score → instance is considered recovered.
    pub recovery_score: u8,
    /// Minutes of missing heartbeat before triggering heal.
    pub heartbeat_timeout_mins: u32,
}

impl Default for HealthThresholds {
    /// Heal below 50, recovered above 70, heartbeat timeout 3 minutes.
    fn default() -> (t: Self)
        ensures
            t.heal_trigger_score == 50,
            t.recovery_score == 70,
            t.heartbeat_timeout_mins == 3,
    {
        HealthThresholds { heal_trigger_score: 50, recovery_score: 70, heartbeat_timeout_mins: 3 }
    }
}

#[derive(Debug, Clone, Copy, PartialEq, Eq, Structural)]
pub enum InstanceHealthStatus {
    /// Score at least 70, all services running.
    Healthy,
    /// Score 50–69, degraded but recoverable.
    Degraded,
    /// Score below 50 or heartbeat missing.
    Critical,
    /// No data received.
    Unknown,
}

#[derive(Debug, Clone, Copy, PartialEq, Eq, Structural)]
pub enum AlertType {
    OpenClawDown,
    DockerDown,
    HeartbeatMissing,
    DiskUsageHigh,
    CpuUsageHigh,
    MemUsageHigh,
    TailscaleDisconnected,
    HealthScoreLow,
}

/// Alert severity, ordered `Info < Warning < Critical`.
#[derive(Debug, Clone, Copy, PartialEq, Eq, Structural, PartialOrd, Ord)]
pub enum AlertSeverity {
    Info,
    Warning,
    Critical,
}

#[derive(Debug, Clone, Copy, PartialEq, Eq, Structural)]
pub enum RecommendedAction {
    NoAction,
    Monitor,
    AutoHeal,
    Failover,
    EscalateToCommander,
}

// ─── Health score ────────────────────────────────────────────────────────────

/// What the full-report score is computed from: OpenClaw status, the number
/// of unhealthy containers, and which usage thresholds are exceeded (disk
/// above 90% or above 80%, 1-min CPU above 95%, memory above 95%).
#[derive(Debug, Clone, Copy)]
pub struct ReportSignals {
    pub openclaw_status: ServiceStatus,
    pub unhealthy_containers: u32,
    pub disk_above_90_pct: bool,
    pub disk_above_80_pct: bool,
    pub cpu_above_95_pct: bool,
    pub mem_above_95_pct: bool,
}

/// 100 minus deductions (OpenClaw not healthy −40, −20 per unhealthy
/// container, disk −15 above 90% else −5 above 80%, CPU −10, memory −10),
/// clamped to 0..=100.
pub open spec fn report_score(s: ReportSignals) -> int {
    let d = (if s.openclaw_status != ServiceStatus::Healthy { 40int } else { 0 })
        + 20 * s.unhealthy_containers
        + (if s.disk_above_90_pct { 15int } else if s.disk_above_80_pct { 5int } else { 0 })
        + (if s.cpu_above_95_pct { 10int } else { 0 })
        + (if s.mem_above_95_pct { 10int } else { 0 });
    if d > 100 { 0 } else { 100 - d }
}

/// Runs the periodic fleet-wide health sweep for Guardian.
pub struct FleetHealthSweeper {
    pub thresholds: HealthThresholds,
}

impl FleetHealthSweeper {
    pub fn new(thresholds: HealthThresholds) -> (s: Self)
        ensures
            s.thresholds == thresholds,
    {
        FleetHealthSweeper { thresholds }
    }

    /// Compute the health score (0–100) of a full report.
    pub fn compute_score(s: &ReportSignals) -> (score: u8)
        ensures
            score as int == report_score(*s),
    {
        let mut d: u64 = 0;
        if s.openclaw_status != ServiceStatus::Healthy {
            d = d + 40;
        }
        d = d + 20 * (s.unhealthy_containers as u64);
        if s.disk_above_90_pct {
            d = d + 15;
        } else if s.disk_above_80_pct {
            d = d + 5;
        }
        if s.cpu_above_95_pct {
            d = d + 10;
        }
        if s.mem_above_95_pct {
            d = d + 10;
        }
        if d > 100 {
            0
        } else {
            (100 - d) as u8
        }
    }
}

// ─── Auto-heal sequence ──────────────────────────────────────────────────────

/// The action of one heal step.
#[derive(Debug, Clone, Copy, PartialEq, Eq, Structural)]
pub enum HealAction {
    /// Step 1: verify by calling vps.health.
    VerifyHealth,
    /// Step 2: docker compose restart openclaw.
    DockerRestartOpenClaw,
    /// Step 3: wait 90s, call openclaw.health (HTTP 200 check).
    WaitAndVerifyOpenClaw,
    /// Step 4: check if PRIMARY; verify STANDBY is ACTIVE.
    VerifyStandbyBeforeFailover,
    /// Step 5: promote standby.
    TriggerFailover,
    /// Step 6: notify Commander (critical).
    NotifyCommanderCritical,
}

/// Outcome of one heal step.
#[derive(Debug, Clone)]
pub struct HealStepResult {
    pub success: bool,
    pub recovered: bool,
    pub details: String,
}

#[derive(Debug, Clone, Copy, PartialEq, Eq, Structural)]
pub enum HealOutcome {
    /// The docker restart, or the instance itself, fixed it.
    Healed,
    FailoverTriggered,
    EscalatedToCommander,
    /// Could not heal, no standby.
    Failed,
}

/// Pair topology info needed for failover decisions.
#[derive(Debug, Clone)]
pub struct PairInfo {
    pub primary_instance_id: String,
    pub standby_instance_id: Option<String>,
    pub role: InstanceRole,
    pub account_id: String,
}

/// One step of the sequence as recorded.
#[derive(Debug, Clone)]
pub struct HealStepRecord {
    pub step_number: u8,
    pub description: String,
    pub action: HealAction,
    pub result: HealStepResult,
}

/// Where the sequence stands: what the caller must do next, or how it ended.
#[derive(Debug, Clone, Copy, PartialEq, Eq, Structural)]
pub enum HealProgress {
    /// Call vps.health and report the score (step 1).
    NeedHealthScore,
    /// Restart OpenClaw's container and report whether the command ran (step 2).
    NeedDockerRestart,
    /// Wait 90s, then report OpenClaw's HTTP status (step 3).
    NeedHttpStatus,
    /// Report whether the standby is ACTIVE (step 4; primaries only).
    NeedStandbyStatus,
    Finished(HealOutcome),
}

/// The outcome of the check or action the caller performed.
#[derive(Debug)]
pub enum HealEvent {
    HealthScore(Result<u8, String>),
    DockerRestart(Result<(), String>),
    HttpStatus(Result<u16, String>),
    StandbyActive(bool),
}

/// A step record as plain values: number, action, success, recovered,
/// description and details.
pub struct StepView {
    pub number: u8,
    pub action: HealAction,
    pub success: bool,
    pub recovered: bool,
    pub description: Seq<char>,
    pub details: Seq<char>,
}

impl HealStepRecord {
    pub open spec fn view(&self) -> StepView {
        StepView {
            number: self.step_number,
            action: self.action,
            success: self.result.success,
            recovered: self.result.recovered,
            description: self.description@,
            details: self.result.details@,
        }
    }
}

/// Fixed description of each step.
pub open spec fn step_description(n: u8) -> Seq<char> {
    if n == 1 {
        "Verify current health score via vps.health"@
    } else if n == 2 {
        "SSH to instance, run: docker compose restart openclaw"@
    } else if n == 3 {
        "Wait 90s then check openclaw HTTP health endpoint"@
    } else if n == 4 {
        "Verify role and standby status before failover"@
    } else if n == 5 {
        "Promote standby to primary via provision.promote_standby"@
    } else {
        "CRITICAL: Notify Commander — standby not available"@
    }
}

pub open spec fn step(n: u8, action: HealAction, success: bool, recovered: bool, details: Seq<char>) -> StepView {
    StepView { number: n, action, success, recovered, description: step_description(n), details }
}

/// `"true"` or `"false"`.
pub open spec fn bool_text(b: bool) -> Seq<char> {
    if b { "true"@ } else { "false"@ }
}

/// The step-4 record.
pub open spec fn role_step(is_primary: bool, standby_active: bool) -> StepView {
    step(4, HealAction::VerifyStandbyBeforeFailover, true, false,
        "Instance is "@ + (if is_primary { "PRIMARY"@ } else { "STANDBY"@ }) + ", standby ACTIVE: "@
            + bool_text(standby_active))
}

/// The next stage and the steps recorded, for the instance's `role` and
/// `recovery_score`, when `event` arrives at stage `p`. An event that does
/// not answer the current stage changes nothing.
pub open spec fn heal_transition(role: InstanceRole, recovery_score: u8, p: HealProgress, event: HealEvent)
    -> (HealProgress, Seq<StepView>)
{
    match (p, event) {
        (HealProgress::NeedHealthScore, HealEvent::HealthScore(r)) => match r {
            Ok(score) => if score > recovery_score {
                (HealProgress::Finished(HealOutcome::Healed),
                    seq![step(1, HealAction::VerifyHealth, true, true,
                        "Health score "@ + decimal(score as nat) + " > threshold, recovered"@)])
            } else {
                (HealProgress::NeedDockerRestart,
                    seq![step(1, HealAction::VerifyHealth, true, false,
                        "Health score "@ + decimal(score as nat) + " still degraded"@)])
            },
            Err(e) => (HealProgress::NeedDockerRestart,
                seq![step(1, HealAction::VerifyHealth, false, false, "Health check failed: "@ + e@)]),
        },
        (HealProgress::NeedDockerRestart, HealEvent::DockerRestart(r)) => (HealProgress::NeedHttpStatus,
            seq![match r {
                Ok(()) => step(2, HealAction::DockerRestartOpenClaw, true, false, "Docker restart command executed"@),
                Err(e) => step(2, HealAction::DockerRestartOpenClaw, false, false, "Docker restart failed: "@ + e@),
            }]),
        (HealProgress::NeedHttpStatus, HealEvent::HttpStatus(r)) => {
            let healed = match r { Ok(s) => s == 200, Err(_) => false };
            let details = match r { Ok(s) => "HTTP "@ + decimal(s as nat), Err(e) => "HTTP check failed: "@ + e@ };
            let s3 = step(3, HealAction::WaitAndVerifyOpenClaw, healed, healed, details);
            if healed {
                (HealProgress::Finished(HealOutcome::Healed), seq![s3])
            } else if role == InstanceRole::Primary {
                (HealProgress::NeedStandbyStatus, seq![s3])
            } else {
                (HealProgress::Finished(HealOutcome::EscalatedToCommander), seq![s3, role_step(false, false)])
            }
        },
        (HealProgress::NeedStandbyStatus, HealEvent::StandbyActive(active)) => if active {
            (HealProgress::Finished(HealOutcome::FailoverTriggered),
                seq![role_step(true, true),
                    step(5, HealAction::TriggerFailover, true, false, "Failover triggered — standby promoting"@)])
        } else {
            (HealProgress::Finished(HealOutcome::EscalatedToCommander),
                seq![role_step(true, false),
                    step(6, HealAction::NotifyCommanderCritical, true, false,
                        "Commander notified. Awaiting instructions. No further action taken."@)])
        },
        _ => (p, Seq::empty()),
    }
}

/// Implements the auto-heal decision tree (verify, restart, re-verify,
/// check role and standby, fail over or escalate). Never deletes a VPS and
/// never skips the standby verification.
pub struct AutoHealEngine {
    pub thresholds: HealthThresholds,
}

fn record(n: u8, action: HealAction, success: bool, recovered: bool, description: &str, details: String) -> (r: HealStepRecord)
    ensures
        r.view() == (StepView { number: n, action, success, recovered, description: description@, details: details@ }),
{
    HealStepRecord {
        step_number: n,
        description: owned(description),
        action,
        result: HealStepResult { success, recovered, details },
    }
}

fn concat2(a: &str, b: &str) -> (r: String)
    ensures
        r@ == a@ + b@,
{
    let mut s = owned(a);
    push_str(&mut s, b);
    s
}

fn role_record(is_primary: bool, standby_active: bool) -> (r: HealStepRecord)
    ensures
        r.view() == role_step(is_primary, standby_active),
{
    let mut d = owned("Instance is ");
    push_str(&mut d, if is_primary { "PRIMARY" } else { "STANDBY" });
    push_str(&mut d, ", standby ACTIVE: ");
    push_str(&mut d, if standby_active { "true" } else { "false" });
    record(4, HealAction::VerifyStandbyBeforeFailover, true, false, "Verify role and standby status before failover", d)
}

impl AutoHealEngine {
    pub fn new(thresholds: HealthThresholds) -> (e: Self)
        ensures
            e.thresholds == thresholds,
    {
        AutoHealEngine { thresholds }
    }

    /// Where a heal sequence starts: with a health check.
    pub fn start(&self) -> (p: HealProgress)
        ensures
            p == HealProgress::NeedHealthScore,
    {
        HealProgress::NeedHealthScore
    }

    /// Advance the heal sequence of an instance of `pair_info.role` by the
    /// outcome of the check or action that stage `progress` asked for.
    pub fn advance(&self, pair_info: &PairInfo, progress: HealProgress, event: HealEvent)
        -> (r: (HealProgress, Vec<HealStepRecord>))
        ensures
            r.0 == heal_transition(pair_info.role, self.thresholds.recovery_score, progress, event).0,
            r.1@.map_values(|s: HealStepRecord| s.view())
                == heal_transition(pair_info.role, self.thresholds.recovery_score, progress, event).1,
    {
        let ghost expected = heal_transition(pair_info.role, self.thresholds.recovery_score, progress, event);
        let mut steps: Vec<HealStepRecord> = Vec::new();
        let next = match (progress, event) {
            (HealProgress::NeedHealthScore, HealEvent::HealthScore(r)) => match r {
                Ok(score) => {
                    let mut d = owned("Health score ");
                    push_decimal(&mut d, score as u64);
                    if score > self.thresholds.recovery_score {
                        push_str(&mut d, " > threshold, recovered");
                        steps.push(record(1, HealAction::VerifyHealth, true, true,
                            "Verify current health score via vps.health", d));
                        proof { assert(steps@.map_values(|s: HealStepRecord| s.view()) =~= expected.1); }
                        HealProgress::Finished(HealOutcome::Healed)
                    } else {
                        push_str(&mut d, " still degraded");
                        steps.push(record(1, HealAction::VerifyHealth, true, false,
                            "Verify current health score via vps.health", d));
                        proof { assert(steps@.map_values(|s: HealStepRecord| s.view()) =~= expected.1); }
                        HealProgress::NeedDockerRestart
                    }
                },
                Err(e) => {
                    let d = concat2("Health check failed: ", e.as_str());
                    steps.push(record(1, HealAction::VerifyHealth, false, false,
                        "Verify current health score via vps.health", d));
                    proof { assert(steps@.map_values(|s: HealStepRecord| s.view()) =~= expected.1); }
                    HealProgress::NeedDockerRestart
                },
            },
            (HealProgress::NeedDockerRestart, HealEvent::DockerRestart(r)) => {
                match r {
                    Ok(()) => steps.push(record(2, HealAction::DockerRestartOpenClaw, true, false,
                        "SSH to instance, run: docker compose restart openclaw",
                        owned("Docker restart command executed"))),
                    Err(e) => steps.push(record(2, HealAction::DockerRestartOpenClaw, false, false,
                        "SSH to instance, run: docker compose restart openclaw",
                        concat2("Docker restart failed: ", e.as_str()))),
                }
                proof { assert(steps@.map_values(|s: HealStepRecord| s.view()) =~= expected.1); }
                HealProgress::NeedHttpStatus
            },
            (HealProgress::NeedHttpStatus, HealEvent::HttpStatus(r)) => {
                let healed = match &r { Ok(s) => *s == 200, Err(_) => false };
                let d = match &r {
                    Ok(s) => {
                        let mut d = owned("HTTP ");
                        push_decimal(&mut d, *s as u64);
                        d
                    },
                    Err(e) => concat2("HTTP check failed: ", e.as_str()),
                };
                steps.push(record(3, HealAction::WaitAndVerifyOpenClaw, healed, healed,
                    "Wait 90s then check openclaw HTTP health endpoint", d));
                if healed {
                    proof { assert(steps@.map_values(|s: HealStepRecord| s.view()) =~= expected.1); }
                    HealProgress::Finished(HealOutcome::Healed)
                } else if pair_info.role == InstanceRole::Primary {
                    proof { assert(steps@.map_values(|s: HealStepRecord| s.view()) =~= expected.1); }
                    HealProgress::NeedStandbyStatus
                } else {
                    steps.push(role_record(false, false));
                    proof { assert(steps@.map_values(|s: HealStepRecord| s.view()) =~= expected.1); }
                    HealProgress::Finished(HealOutcome::EscalatedToCommander)
                }
            },
            (HealProgress::NeedStandbyStatus, HealEvent::StandbyActive(active)) => {
                steps.push(role_record(true, active));
                if active {
                    steps.push(record(5, HealAction::TriggerFailover, true, false,
                        "Promote standby to primary via provision.promote_standby",
                        owned("Failover triggered — standby promoting")));
                    proof { assert(steps@.map_values(|s: HealStepRecord| s.view()) =~= expected.1); }
                    HealProgress::Finished(HealOutcome::FailoverTriggered)
                } else {
                    steps.push(record(6, HealAction::NotifyCommanderCritical, true, false,
                        "CRITICAL: Notify Commander — standby not available",
                        owned("Commander notified. Awaiting instructions. No further action taken.")));
                    proof { assert(steps@.map_values(|s: HealStepRecord| s.view()) =~= expected.1); }
                    HealProgress::Finished(HealOutcome::EscalatedToCommander)
                }
            },
            (p, _) => p,
        };
        assert(steps@.map_values(|s: HealStepRecord| s.view()) =~= expected.1);
        (next, steps)
    }
}

/// Whether the sequence has ended.
pub open spec fn heal_finished(p: HealProgress) -> bool {
    p matches HealProgress::Finished(_)
}

/// Where the sequence stands, and the steps recorded, after the events
/// `evs` arrive one by one from stage `p`; events after the end are not
/// looked at.
pub open spec fn heal_run(role: InstanceRole, recovery_score: u8, p: HealProgress, evs: Seq<HealEvent>)
    -> (HealProgress, Seq<StepView>)
    decreases evs.len(),
{
    if evs.len() == 0 || heal_finished(p) {
        (p, Seq::empty())
    } else {
        let t = heal_transition(role, recovery_score, p, evs[0]);
        let rest = heal_run(role, recovery_score, t.0, evs.subrange(1, evs.len() as int));
        (rest.0, t.1 + rest.1)
    }
}

/// One run of the heal sequence on an instance, as recorded.
#[derive(Debug, Clone)]
pub struct HealAttempt {
    pub attempt_id: String,
    pub instance_id: String,
    /// Milliseconds since the Unix epoch.
    pub started_at: i64,
    pub steps: Vec<HealStepRecord>,
    pub outcome: HealOutcome,
}

impl AutoHealEngine {
    /// The record of the heal sequence of `instance_id`, started at
    /// `started_at` under id `attempt_id`, whose checks and actions came
    /// out as `events`, in order: every step recorded on the way and the
    /// outcome. `None` when the events end before the sequence does.
    pub fn heal_attempt(&self, attempt_id: String, instance_id: &str, started_at: i64, pair_info: &PairInfo,
        events: Vec<HealEvent>) -> (r: Option<HealAttempt>)
        ensures
            ({
                let run = heal_run(pair_info.role, self.thresholds.recovery_score, HealProgress::NeedHealthScore,
                    events@);
                match run.0 {
                    HealProgress::Finished(o) => r matches Some(a) && a.outcome == o
                        && a.instance_id@ == instance_id@ && a.attempt_id == attempt_id
                        && a.started_at == started_at
                        && a.steps@.map_values(|s: HealStepRecord| s.view()) == run.1,
                    _ => r is None,
                }
            }),
    {
        let ghost role = pair_info.role;
        let ghost rs = self.thresholds.recovery_score;
        let ghost all = events@;
        let ghost goal = heal_run(role, rs, HealProgress::NeedHealthScore, all);
        let mut evs = events;
        let mut progress = self.start();
        let mut steps: Vec<HealStepRecord> = Vec::new();
        while evs.len() > 0 && !matches!(progress, HealProgress::Finished(_))
            invariant
                role == pair_info.role,
                rs == self.thresholds.recovery_score,
                goal == heal_run(role, rs, HealProgress::NeedHealthScore, all),
                goal.0 == heal_run(role, rs, progress, evs@).0,
                goal.1 == steps@.map_values(|s: HealStepRecord| s.view()) + heal_run(role, rs, progress, evs@).1,
            decreases evs@.len(),
        {
            let ghost before = evs@;
            let ghost old_steps = steps@.map_values(|s: HealStepRecord| s.view());
            let e = evs.remove(0);
            assert(before.subrange(1, before.len() as int) =~= evs@);
            let ghost t = heal_transition(role, rs, progress, e);
            let (next, new_steps) = self.advance(pair_info, progress, e);
            let ghost added = new_steps@.map_values(|s: HealStepRecord| s.view());
            let mut new_steps = new_steps;
            let ghost base = steps@;
            let ghost fresh = new_steps@;
            while new_steps.len() > 0
                invariant
                    steps@ + new_steps@ == base + fresh,
                decreases new_steps@.len(),
            {
                let ghost before_s = steps@;
                let ghost before_n = new_steps@;
                let x = new_steps.remove(0);
                steps.push(x);
                assert(steps@ + new_steps@ =~= before_s + before_n);
            }
            assert(steps@ =~= base + fresh);
            proof {
                assert(steps@.map_values(|s: HealStepRecord| s.view()) =~= old_steps + added);
                assert(old_steps + (added + heal_run(role, rs, next, evs@).1)
                    =~= (old_steps + added) + heal_run(role, rs, next, evs@).1);
            }
            progress = next;
        }
        match progress {
            HealProgress::Finished(o) => {
                assert(heal_run(role, rs, progress, evs@).1 =~= Seq::<StepView>::empty());
                assert(steps@.map_values(|s: HealStepRecord| s.view()) =~= goal.1);
                Some(HealAttempt { attempt_id, instance_id: owned(instance_id), started_at, steps, outcome: o })
            },
            _ => None,
        }
    }
}

/// A failover is only ever triggered when a PRIMARY's standby has just been
/// reported ACTIVE.
pub proof fn lemma_failover_requires_active_standby(role: InstanceRole, recovery_score: u8, p: HealProgress, e: HealEvent)
    requires
        heal_transition(role, recovery_score, p, e).0 == HealProgress::Finished(HealOutcome::FailoverTriggered),
        p != HealProgress::Finished(HealOutcome::FailoverTriggered),
    ensures
        p == HealProgress::NeedStandbyStatus,
        e == HealEvent::StandbyActive(true),
{
}

/// A STANDBY is never asked for a standby check, so it never fails over: a
/// STANDBY's sequence cannot reach the failover outcome from any unfinished
/// stage.
pub proof fn lemma_standby_never_fails_over(recovery_score: u8, p: HealProgress, e: HealEvent)
    requires
        p != HealProgress::NeedStandbyStatus,
        p != HealProgress::Finished(HealOutcome::FailoverTriggered),
    ensures
        heal_transition(InstanceRole::Standby, recovery_score, p, e).0 != HealProgress::NeedStandbyStatus,
        heal_transition(InstanceRole::Standby, recovery_score, p, e).0 != HealProgress::Finished(HealOutcome::FailoverTriggered),
{
}

/// Whenever the sequence fails over, the standby verification step is among
/// the steps recorded, right before the failover step.
pub proof fn lemma_failover_recorded_after_verification(role: InstanceRole, recovery_score: u8, p: HealProgress, e: HealEvent)
    requires
        heal_transition(role, recovery_score, p, e).0 == HealProgress::Finished(HealOutcome::FailoverTriggered),
        p != HealProgress::Finished(HealOutcome::FailoverTriggered),
    ensures
        heal_transition(role, recovery_score, p, e).1.len() == 2,
        heal_transition(role, recovery_score, p, e).1[0].action == HealAction::VerifyStandbyBeforeFailover,
        heal_transition(role, recovery_score, p, e).1[1].action == HealAction::TriggerFailover,
{
}

/// The step numbers recorded in a run.
pub open spec fn step_numbers(steps: Seq<StepView>) -> Seq<u8> {
    steps.map_values(|v: StepView| v.number)
}

/// The auto-heal decision tree over a whole run, whose checks came out as
/// `score` (vps.health), `restart` (docker restart), `http` (OpenClaw's
/// HTTP check) and `active` (whether the standby is ACTIVE): a score above
/// the recovery threshold heals at step 1; else HTTP 200 after the restart
/// heals at step 3; else a STANDBY is escalated after step 4; else a
/// PRIMARY fails over (step 5) when its standby is ACTIVE and is escalated
/// to the commander (step 6) when not.
pub proof fn lemma_heal_decision_tree(role: InstanceRole, recovery: u8, score: Result<u8, String>,
    restart: Result<(), String>, http: Result<u16, String>, active: bool)
    ensures
        ({
            let evs = seq![HealEvent::HealthScore(score), HealEvent::DockerRestart(restart),
                HealEvent::HttpStatus(http), HealEvent::StandbyActive(active)];
            let run = heal_run(role, recovery, HealProgress::NeedHealthScore, evs);
            if score matches Ok(x) && x > recovery {
                run.0 == HealProgress::Finished(HealOutcome::Healed) && step_numbers(run.1) == seq![1u8]
            } else if http == Ok::<u16, String>(200) {
                run.0 == HealProgress::Finished(HealOutcome::Healed) && step_numbers(run.1) == seq![1u8, 2, 3]
            } else if role != InstanceRole::Primary {
                run.0 == HealProgress::Finished(HealOutcome::EscalatedToCommander)
                    && step_numbers(run.1) == seq![1u8, 2, 3, 4]
            } else if active {
                run.0 == HealProgress::Finished(HealOutcome::FailoverTriggered)
                    && step_numbers(run.1) == seq![1u8, 2, 3, 4, 5]
            } else {
                run.0 == HealProgress::Finished(HealOutcome::EscalatedToCommander)
                    && step_numbers(run.1) == seq![1u8, 2, 3, 4, 6]
            }
        }),
{
    let evs = seq![HealEvent::HealthScore(score), HealEvent::DockerRestart(restart),
        HealEvent::HttpStatus(http), HealEvent::StandbyActive(active)];
    let e1 = evs.subrange(1, 4);
    let e2 = e1.subrange(1, 3);
    let e3 = e2.subrange(1, 2);
    let e4 = e3.subrange(1, 1);
    assert(evs[0] == HealEvent::HealthScore(score));
    assert(e1[0] == HealEvent::DockerRestart(restart));
    assert(e2[0] == HealEvent::HttpStatus(http));
    assert(e3[0] == HealEvent::StandbyActive(active));
    let t1 = heal_transition(role, recovery, HealProgress::NeedHealthScore, evs[0]);
    let t2 = heal_transition(role, recovery, HealProgress::NeedDockerRestart, e1[0]);
    let t3 = heal_transition(role, recovery, HealProgress::NeedHttpStatus, e2[0]);
    let t4 = heal_transition(role, recovery, HealProgress::NeedStandbyStatus, e3[0]);
    let r4 = heal_run(role, recovery, t4.0, e4);
    assert(e4.len() == 0);
    assert(r4 == (t4.0, Seq::<StepView>::empty()));
    let r3x = heal_run(role, recovery, t3.0, e3);
    let r2 = heal_run(role, recovery, HealProgress::NeedHttpStatus, e2);
    let r1 = heal_run(role, recovery, HealProgress::NeedDockerRestart, e1);
    let run = heal_run(role, recovery, HealProgress::NeedHealthScore, evs);
    let r1x = heal_run(role, recovery, t1.0, e1);
    assert(run == (r1x.0, t1.1 + r1x.1));
    if score matches Ok(x) && x > recovery {
        assert(t1.0 == HealProgress::Finished(HealOutcome::Healed));
        assert(r1x == (t1.0, Seq::<StepView>::empty()));
        assert(run.1 =~= t1.1);
        assert(step_numbers(run.1) =~= seq![1u8]);
    } else {
        assert(t1.0 == HealProgress::NeedDockerRestart);
        assert(r1x == r1);
        assert(t2.0 == HealProgress::NeedHttpStatus);
        assert(r1 == (r2.0, t2.1 + r2.1));
        assert(r2 == (r3x.0, t3.1 + r3x.1));
        if http == Ok::<u16, String>(200) {
            assert(t3.0 == HealProgress::Finished(HealOutcome::Healed));
            assert(r3x == (t3.0, Seq::<StepView>::empty()));
            assert(run.1 =~= t1.1 + t2.1 + t3.1);
            assert(step_numbers(run.1) =~= seq![1u8, 2, 3]);
        } else if role != InstanceRole::Primary {
            assert(t3.0 == HealProgress::Finished(HealOutcome::EscalatedToCommander));
            assert(r3x == (t3.0, Seq::<StepView>::empty()));
            assert(run.1 =~= t1.1 + t2.1 + t3.1);
            assert(step_numbers(run.1) =~= seq![1u8, 2, 3, 4]);
        } else {
            assert(t3.0 == HealProgress::NeedStandbyStatus);
            assert(r3x == (t4.0, t4.1 + r4.1));
            assert(run.1 =~= t1.1 + t2.1 + t3.1 + t4.1);
            if active {
                assert(step_numbers(run.1) =~= seq![1u8, 2, 3, 4, 5]);
            } else {
                assert(step_numbers(run.1) =~= seq![1u8, 2, 3, 4, 6]);
            }
        }
    }
}

} // verus!
