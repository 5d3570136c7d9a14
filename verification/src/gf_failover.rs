//! Primary/standby failover: promoting a STANDBY to PRIMARY when the PRIMARY
//! fails, as a state machine whose calls to the control plane are made by
//! the caller.
//!
//! Safety invariant: a user always has exactly one ACTIVE gateway. Nothing
//! is changed before the standby is confirmed ACTIVE, and success is only
//! reported once routing points at the new primary.

use vstd::prelude::*;
use crate::text::{owned, push_str};

verus! {

#[derive(Debug, Clone, Copy, PartialEq, Eq, Structural)]
pub enum FailoverTrigger {
    /// Guardian auto-heal step 5 — health score below threshold.
    AutoHeal,
    /// Provider-level outage detected.
    ProviderOutage,
    /// Manual trigger by Commander on operator request.
    ManualByCommander,
    /// Planned maintenance window.
    PlannedMaintenance,
}

#[derive(Debug, Clone, Copy, PartialEq, Eq, Structural)]
pub enum FailoverStepType {
    /// Verify standby is truly ACTIVE (double-check before promoting).
    VerifyStandby,
    /// Update the pair: standby → PRIMARY, failed → FAILED.
    UpdatePairStatus,
    /// Notify the user's gateway of the new backend.
    NotifyGateway,
    /// Update DNS / load balancer to point at the new primary.
    UpdateRouting,
    /// Mark the failed instance for reprovisioning.
    ScheduleReprovisioning,
    /// Send telemetry to Commander.
    NotifyCommander,
}

/// One executed failover step.
#[derive(Debug)]
pub struct FailoverStep {
    pub step: FailoverStepType,
    pub success: bool,
    pub details: String,
}

/// Where a failover stands: which control-plane call the caller must make
/// next, or how it ended.
#[derive(Debug, Clone, Copy, PartialEq, Eq, Structural)]
pub enum FailoverProgress {
    /// Verify the standby is ACTIVE.
    NeedStandbyVerification,
    /// Update the pair status.
    NeedPairStatusUpdate,
    /// Update routing to the new primary.
    NeedRoutingUpdate,
    /// Queue reprovisioning of a new standby.
    NeedReprovisionSchedule { routing_ok: bool },
    /// Aborted: the standby was not confirmed ACTIVE; nothing was changed.
    Aborted,
    /// All steps ran. The failover succeeded when routing was updated.
    Completed { routing_ok: bool, reprovision_ok: bool },
}

/// A step as plain values.
pub struct FailoverStepView {
    pub step: FailoverStepType,
    pub success: bool,
    pub details: Seq<char>,
}

impl FailoverStep {
    pub open spec fn view(&self) -> FailoverStepView {
        FailoverStepView { step: self.step, success: self.success, details: self.details@ }
    }
}

pub open spec fn fstep(step: FailoverStepType, success: bool, details: Seq<char>) -> FailoverStepView {
    FailoverStepView { step, success, details }
}

/// The next stage and the steps recorded when the outcome of the call that
/// stage `p` asked for arrives; `standby` is the standby instance id. An
/// outcome at a finished stage changes nothing.
pub open spec fn failover_transition(standby: Seq<char>, p: FailoverProgress, outcome: Result<(), String>)
    -> (FailoverProgress, Seq<FailoverStepView>)
{
    match p {
        FailoverProgress::NeedStandbyVerification => match outcome {
            Ok(()) => (FailoverProgress::NeedPairStatusUpdate,
                seq![fstep(FailoverStepType::VerifyStandby, true, "Standby "@ + standby + " confirmed ACTIVE"@)]),
            Err(_) => (FailoverProgress::Aborted,
                seq![fstep(FailoverStepType::VerifyStandby, false, "Standby not confirmed ACTIVE — failover aborted"@)]),
        },
        FailoverProgress::NeedPairStatusUpdate => (FailoverProgress::NeedRoutingUpdate, seq![match outcome {
            Ok(()) => fstep(FailoverStepType::UpdatePairStatus, true, "Pair status updated: standby → PRIMARY, failed → FAILED"@),
            Err(e) => fstep(FailoverStepType::UpdatePairStatus, false, "Status update failed: "@ + e@),
        }]),
        FailoverProgress::NeedRoutingUpdate => (FailoverProgress::NeedReprovisionSchedule { routing_ok: outcome is Ok }, seq![match outcome {
            Ok(()) => fstep(FailoverStepType::UpdateRouting, true, "Routing updated to new primary"@),
            Err(e) => fstep(FailoverStepType::UpdateRouting, false, "Routing update failed: "@ + e@),
        }]),
        FailoverProgress::NeedReprovisionSchedule { routing_ok } => {
            let ok = outcome is Ok;
            (FailoverProgress::Completed { routing_ok, reprovision_ok: ok }, seq![
                match outcome {
                    Ok(()) => fstep(FailoverStepType::ScheduleReprovisioning, true, "New standby reprovisioning queued"@),
                    Err(e) => fstep(FailoverStepType::ScheduleReprovisioning, false, "Reprovision scheduling failed: "@ + e@),
                },
                fstep(FailoverStepType::NotifyCommander, true,
                    "Failover complete. New primary: "@ + standby + ". Standby reprovisioning: "@
                        + (if ok { "true"@ } else { "false"@ }) + "."@),
            ])
        },
        _ => (p, Seq::empty()),
    }
}

/// Whether a finished failover reports success: only when the standby was
/// confirmed and routing was updated.
pub open spec fn failover_succeeded(p: FailoverProgress) -> bool {
    match p {
        FailoverProgress::Completed { routing_ok, .. } => routing_ok,
        _ => false,
    }
}

/// Executes failovers from a failed PRIMARY to its STANDBY against the
/// control plane at `gf_api_base`.
pub struct FailoverEngine {
    gf_api_base: String,
    gf_api_key: String,
}

fn step_record(step: FailoverStepType, success: bool, details: String) -> (r: FailoverStep)
    ensures
        r.view() == fstep(step, success, details@),
{
    FailoverStep { step, success, details }
}

fn joined(a: &str, b: &str) -> (r: String)
    ensures
        r@ == a@ + b@,
{
    let mut s = owned(a);
    push_str(&mut s, b);
    s
}

impl FailoverEngine {
    pub closed spec fn api_base(&self) -> Seq<char> {
        self.gf_api_base@
    }

    pub closed spec fn api_key(&self) -> Seq<char> {
        self.gf_api_key@
    }

    pub fn new(gf_api_base: String, gf_api_key: String) -> (e: Self)
        ensures
            e.api_base() == gf_api_base@,
            e.api_key() == gf_api_key@,
    {
        FailoverEngine { gf_api_base, gf_api_key }
    }

    /// Where every failover starts: verifying the standby.
    pub fn start(&self) -> (p: FailoverProgress)
        ensures
            p == FailoverProgress::NeedStandbyVerification,
    {
        FailoverProgress::NeedStandbyVerification
    }

    /// Advance a failover to standby `standby_instance_id` by the outcome of
    /// the call that stage `progress` asked for.
    pub fn advance(&self, standby_instance_id: &str, progress: FailoverProgress, outcome: Result<(), String>)
        -> (r: (FailoverProgress, Vec<FailoverStep>))
        ensures
            r.0 == failover_transition(standby_instance_id@, progress, outcome).0,
            r.1@.map_values(|s: FailoverStep| s.view()) == failover_transition(standby_instance_id@, progress, outcome).1,
    {
        let ghost expected = failover_transition(standby_instance_id@, progress, outcome);
        let mut steps: Vec<FailoverStep> = Vec::new();
        let next = match progress {
            FailoverProgress::NeedStandbyVerification => match outcome {
                Ok(()) => {
                    let mut d = owned("Standby ");
                    push_str(&mut d, standby_instance_id);
                    push_str(&mut d, " confirmed ACTIVE");
                    steps.push(step_record(FailoverStepType::VerifyStandby, true, d));
                    FailoverProgress::NeedPairStatusUpdate
                },
                Err(_) => {
                    steps.push(step_record(FailoverStepType::VerifyStandby, false,
                        owned("Standby not confirmed ACTIVE — failover aborted")));
                    FailoverProgress::Aborted
                },
            },
            FailoverProgress::NeedPairStatusUpdate => {
                match outcome {
                    Ok(()) => steps.push(step_record(FailoverStepType::UpdatePairStatus, true,
                        owned("Pair status updated: standby → PRIMARY, failed → FAILED"))),
                    Err(e) => steps.push(step_record(FailoverStepType::UpdatePairStatus, false,
                        joined("Status update failed: ", e.as_str()))),
                }
                FailoverProgress::NeedRoutingUpdate
            },
            FailoverProgress::NeedRoutingUpdate => {
                let ok = outcome.is_ok();
                match outcome {
                    Ok(()) => steps.push(step_record(FailoverStepType::UpdateRouting, true,
                        owned("Routing updated to new primary"))),
                    Err(e) => steps.push(step_record(FailoverStepType::UpdateRouting, false,
                        joined("Routing update failed: ", e.as_str()))),
                }
                FailoverProgress::NeedReprovisionSchedule { routing_ok: ok }
            },
            FailoverProgress::NeedReprovisionSchedule { routing_ok } => {
                let ok = outcome.is_ok();
                match outcome {
                    Ok(()) => steps.push(step_record(FailoverStepType::ScheduleReprovisioning, true,
                        owned("New standby reprovisioning queued"))),
                    Err(e) => steps.push(step_record(FailoverStepType::ScheduleReprovisioning, false,
                        joined("Reprovision scheduling failed: ", e.as_str()))),
                }
                let mut d = owned("Failover complete. New primary: ");
                push_str(&mut d, standby_instance_id);
                push_str(&mut d, ". Standby reprovisioning: ");
                push_str(&mut d, if ok { "true" } else { "false" });
                push_str(&mut d, ".");
                steps.push(step_record(FailoverStepType::NotifyCommander, true, d));
                FailoverProgress::Completed { routing_ok, reprovision_ok: ok }
            },
            p => p,
        };
        proof {
            assert(steps@.map_values(|s: FailoverStep| s.view()) =~= expected.1);
        }
        (next, steps)
    }
}

/// A request to fail over from a failed PRIMARY to its STANDBY.
#[derive(Debug, Clone)]
pub struct FailoverRequest {
    pub request_id: String,
    pub account_id: String,
    pub failed_instance_id: String,
    pub standby_instance_id: String,
    pub trigger_reason: FailoverTrigger,
    /// The agent that triggered it.
    pub triggered_by: String,
    /// Milliseconds since the Unix epoch.
    pub triggered_at: i64,
}

/// The record of a failover that ran to its end.
#[derive(Debug)]
pub struct FailoverResult {
    pub request_id: String,
    pub success: bool,
    pub failed_instance_id: String,
    pub new_primary_instance_id: String,
    pub promotion_duration_ms: u64,
    pub dns_update_duration_ms: Option<u64>,
    pub steps: Vec<FailoverStep>,
    /// Milliseconds since the Unix epoch.
    pub completed_at: i64,
    pub reprovisioning_scheduled: bool,
}

/// Whether a failover has ended.
pub open spec fn failover_finished(p: FailoverProgress) -> bool {
    p is Aborted || p is Completed
}

/// Where a failover to `standby` stands, and the steps recorded, after the
/// call outcomes `outs` arrive one by one from stage `p`; outcomes after
/// the end are not looked at.
pub open spec fn failover_run(standby: Seq<char>, p: FailoverProgress, outs: Seq<Result<(), String>>)
    -> (FailoverProgress, Seq<FailoverStepView>)
    decreases outs.len(),
{
    if outs.len() == 0 || failover_finished(p) {
        (p, Seq::empty())
    } else {
        let t = failover_transition(standby, p, outs[0]);
        let rest = failover_run(standby, t.0, outs.subrange(1, outs.len() as int));
        (rest.0, t.1 + rest.1)
    }
}

/// Milliseconds from `start` to `end`, 0 when `end` is not later.
pub open spec fn elapsed_between(start: i64, end: i64) -> int {
    if end > start { end - start } else { 0 }
}

/// The refusal of a failover whose standby was not confirmed ACTIVE.
pub open spec fn aborted_text(standby: Seq<char>) -> Seq<char> {
    "Failover aborted: standby "@ + standby + " is not ACTIVE"@
}

impl FailoverEngine {
    /// The result of the failover `req` whose control-plane calls came out
    /// as `outcomes`, in order, finishing at `now`: `Err` with the abort
    /// message when the standby was not confirmed ACTIVE (nothing else was
    /// called); otherwise the result, a success only when routing was
    /// updated. `None` when the outcomes end before the failover does.
    pub fn failover_result(&self, req: &FailoverRequest, outcomes: Vec<Result<(), String>>, now: i64)
        -> (r: Option<Result<FailoverResult, String>>)
        ensures
            ({
                let run = failover_run(req.standby_instance_id@, FailoverProgress::NeedStandbyVerification,
                    outcomes@);
                match run.0 {
                    FailoverProgress::Aborted => r matches Some(Err(m)) && m@ == aborted_text(req.standby_instance_id@),
                    FailoverProgress::Completed { routing_ok, reprovision_ok } => r matches Some(Ok(res))
                        && res.request_id@ == req.request_id@
                        && res.failed_instance_id@ == req.failed_instance_id@
                        && res.new_primary_instance_id@ == req.standby_instance_id@
                        && res.success == routing_ok
                        && res.reprovisioning_scheduled == reprovision_ok
                        && res.promotion_duration_ms == elapsed_between(req.triggered_at, now)
                        && res.dns_update_duration_ms is None
                        && res.completed_at == now
                        && res.steps@.map_values(|s: FailoverStep| s.view()) == run.1,
                    _ => r is None,
                }
            }),
    {
        let ghost standby = req.standby_instance_id@;
        let ghost all = outcomes@;
        let ghost goal = failover_run(standby, FailoverProgress::NeedStandbyVerification, all);
        let mut outs = outcomes;
        let mut progress = self.start();
        let mut steps: Vec<FailoverStep> = Vec::new();
        while outs.len() > 0 && !(matches!(progress, FailoverProgress::Aborted)
            || matches!(progress, FailoverProgress::Completed { .. }))
            invariant
                standby == req.standby_instance_id@,
                goal == failover_run(standby, FailoverProgress::NeedStandbyVerification, all),
                goal.0 == failover_run(standby, progress, outs@).0,
                goal.1 == steps@.map_values(|s: FailoverStep| s.view()) + failover_run(standby, progress, outs@).1,
            decreases outs@.len(),
        {
            let ghost before = outs@;
            let ghost old_steps = steps@.map_values(|s: FailoverStep| s.view());
            let o = outs.remove(0);
            assert(before.subrange(1, before.len() as int) =~= outs@);
            let (next, new_steps) = self.advance(req.standby_instance_id.as_str(), progress, o);
            let ghost added = new_steps@.map_values(|s: FailoverStep| s.view());
            let mut new_steps = new_steps;
            let ghost base = steps@;
            let ghost fresh = new_steps@;
            while new_steps.len() > 0
                invariant
                    steps@ + new_steps@ == base + fresh,
                decreases new_steps@.len(),
            {
                let ghost before_s = steps@;
                let ghost before_n = new_steps@;
                let x = new_steps.remove(0);
                steps.push(x);
                assert(steps@ + new_steps@ =~= before_s + before_n);
            }
            assert(steps@ =~= base + fresh);
            proof {
                assert(steps@.map_values(|s: FailoverStep| s.view()) =~= old_steps + added);
                assert(old_steps + (added + failover_run(standby, next, outs@).1)
                    =~= (old_steps + added) + failover_run(standby, next, outs@).1);
            }
            progress = next;
        }
        match progress {
            FailoverProgress::Aborted => {
                let mut m = owned("Failover aborted: standby ");
                push_str(&mut m, req.standby_instance_id.as_str());
                push_str(&mut m, " is not ACTIVE");
                Some(Err(m))
            },
            FailoverProgress::Completed { routing_ok, reprovision_ok } => {
                assert(failover_run(standby, progress, outs@).1 =~= Seq::<FailoverStepView>::empty());
                assert(steps@.map_values(|s: FailoverStep| s.view()) =~= goal.1);
                let promotion: u64 = if now > req.triggered_at { (now as i128 - req.triggered_at as i128) as u64 } else { 0 };
                Some(Ok(FailoverResult {
                    request_id: owned(req.request_id.as_str()),
                    success: routing_ok,
                    failed_instance_id: owned(req.failed_instance_id.as_str()),
                    new_primary_instance_id: owned(req.standby_instance_id.as_str()),
                    promotion_duration_ms: promotion,
                    dns_update_duration_ms: None,
                    steps,
                    completed_at: now,
                    reprovisioning_scheduled: reprovision_ok,
                }))
            },
            _ => None,
        }
    }
}

/// A failover that was not confirmed at the standby-verification stage
/// never changes anything: it aborts right there.
pub proof fn lemma_unconfirmed_standby_aborts(standby: Seq<char>, e: String)
    ensures
        failover_transition(standby, FailoverProgress::NeedStandbyVerification, Err(e)).0 == FailoverProgress::Aborted,
        failover_transition(standby, FailoverProgress::Aborted, Err(e)).0 == FailoverProgress::Aborted,
        failover_transition(standby, FailoverProgress::Aborted, Ok(())).0 == FailoverProgress::Aborted,
{
}

/// Success is only reported for a failover whose routing was updated.
pub proof fn lemma_success_requires_routing(standby: Seq<char>, p: FailoverProgress, o: Result<(), String>)
    requires
        failover_succeeded(failover_transition(standby, p, o).0),
        !failover_succeeded(p),
    ensures
        p matches FailoverProgress::NeedReprovisionSchedule { routing_ok } && routing_ok,
{
}

/// Executes failovers for many instances (a provider region outage), at
/// most `max_concurrent` at a time.
pub struct BulkFailoverOrchestrator {
    pub engine: FailoverEngine,
    pub max_concurrent: usize,
}

impl BulkFailoverOrchestrator {
    /// Processes up to 20 failovers in parallel.
    pub fn new(engine: FailoverEngine) -> (o: Self)
        ensures
            o.engine == engine,
            o.max_concurrent == 20,
    {
        BulkFailoverOrchestrator { engine, max_concurrent: 20 }
    }
}

/// Once the standby is confirmed ACTIVE a failover runs to its end: from
/// the pair-status update on, every outcome, failed or not, moves it to the
/// next step (a failure is only recorded as a failed step), so it never
/// aborts, and it always records the routing update.
pub proof fn lemma_confirmed_failover_never_aborts(standby: Seq<char>, o: Result<(), String>)
    ensures
        failover_transition(standby, FailoverProgress::NeedPairStatusUpdate, o).0 == FailoverProgress::NeedRoutingUpdate,
        failover_transition(standby, FailoverProgress::NeedPairStatusUpdate, o).1.len() == 1,
        failover_transition(standby, FailoverProgress::NeedPairStatusUpdate, o).1[0].step == FailoverStepType::UpdatePairStatus,
        failover_transition(standby, FailoverProgress::NeedPairStatusUpdate, o).1[0].success == (o is Ok),
        failover_transition(standby, FailoverProgress::NeedRoutingUpdate, o).0
            == (FailoverProgress::NeedReprovisionSchedule { routing_ok: o is Ok }),
        failover_transition(standby, FailoverProgress::NeedStandbyVerification, o).0
            == (if o is Ok { FailoverProgress::NeedPairStatusUpdate } else { FailoverProgress::Aborted }),
{
}

/// A failover aborts exactly when its first call, the standby check,
/// fails: whatever the later calls return, a run whose standby check
/// succeeded never ends aborted, and one that runs through four calls
/// completes, reporting success exactly when the third (the routing
/// update) succeeded and reprovisioning as scheduled exactly when the
/// fourth did.
pub proof fn lemma_failover_run_outcome(standby: Seq<char>, outs: Seq<Result<(), String>>)
    requires
        outs.len() >= 1,
    ensures
        (failover_run(standby, FailoverProgress::NeedStandbyVerification, outs).0 == FailoverProgress::Aborted)
            <==> outs[0] is Err,
        outs.len() >= 4 && outs[0] is Ok ==> failover_run(standby, FailoverProgress::NeedStandbyVerification, outs).0
            == (FailoverProgress::Completed { routing_ok: outs[2] is Ok, reprovision_ok: outs[3] is Ok }),
{
    let p0 = FailoverProgress::NeedStandbyVerification;
    let t0 = failover_transition(standby, p0, outs[0]);
    let r1 = outs.subrange(1, outs.len() as int);
    if outs[0] is Ok {
        lemma_run_from_confirmed(standby, FailoverProgress::NeedPairStatusUpdate, r1);
        if outs.len() >= 4 {
            let r2 = r1.subrange(1, r1.len() as int);
            let r3 = r2.subrange(1, r2.len() as int);
            let r4 = r3.subrange(1, r3.len() as int);
            assert(r1[0] == outs[1]);
            assert(r2[0] == outs[2]);
            assert(r3[0] == outs[3]);
            let p2 = FailoverProgress::NeedRoutingUpdate;
            let p3 = FailoverProgress::NeedReprovisionSchedule { routing_ok: outs[2] is Ok };
            let p4 = FailoverProgress::Completed { routing_ok: outs[2] is Ok, reprovision_ok: outs[3] is Ok };
            assert(failover_run(standby, p4, r4).0 == p4);
            assert(failover_run(standby, p3, r3).0 == p4);
            assert(failover_run(standby, p2, r2).0 == p4);
            assert(failover_run(standby, FailoverProgress::NeedPairStatusUpdate, r1).0 == p4);
        }
    } else {
        assert(failover_run(standby, FailoverProgress::Aborted, r1).0 == FailoverProgress::Aborted);
    }
}

/// From any stage after the standby check, a run never ends aborted.
proof fn lemma_run_from_confirmed(standby: Seq<char>, p: FailoverProgress, outs: Seq<Result<(), String>>)
    requires
        p != FailoverProgress::NeedStandbyVerification,
        p != FailoverProgress::Aborted,
    ensures
        failover_run(standby, p, outs).0 != FailoverProgress::Aborted,
    decreases outs.len(),
{
    if outs.len() > 0 && !failover_finished(p) {
        let t = failover_transition(standby, p, outs[0]);
        lemma_run_from_confirmed(standby, t.0, outs.subrange(1, outs.len() as int));
    }
}

} // verus!
