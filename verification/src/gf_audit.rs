//! Audit-trail records of the GatewayForge side, the helpers that build
//! audit targets, and the logger that chains each record to the previous
//! one by hash.

use vstd::prelude::*;
use crate::text::owned;
use crate::sources::{now_millis, random_uuid};

verus! {

#[derive(Debug, Clone, Copy, PartialEq, Eq, Structural)]
pub enum AgentId {
    Commander,
    Guardian,
    Forge,
    Ledger,
    Triage,
    Briefer,
    System,
}

#[derive(Debug, Clone, Copy, PartialEq, Eq, Structural)]
pub enum AuditAction {
    ProvisionPrimary,
    ProvisionStandby,
    TeardownInstance,
    ResizeInstance,
    InitiateAutoHeal,
    DockerRestartOpenClaw,
    TriggerFailover,
    PromoteStandby,
    ScheduleReprovision,
    PushConfig,
    RollbackConfig,
    GenerateCostReport,
    GenerateIncidentReport,
    UpdateProviderSelection,
    SilenceAlerts,
    OperatorConfirmationReceived,
    AgentSpawned,
    AgentTerminated,
}

/// What an audited action touched.
#[derive(Debug)]
pub struct AuditTarget {
    pub target_type: TargetType,
    pub target_id: String,
    pub account_id: Option<String>,
    pub provider: Option<String>,
    pub region: Option<String>,
}

#[derive(Debug, Clone, Copy, PartialEq, Eq, Structural)]
pub enum TargetType {
    Instance,
    Pair,
    Account,
    Fleet,
    Provider,
    Config,
    Agent,
}

#[derive(Debug, Clone, Copy, PartialEq, Eq, Structural)]
pub enum ConfirmationChannel {
    WhatsApp,
    Telegram,
    Discord,
    Web,
}

/// The view of an optional string.
pub open spec fn opt_view(s: Option<String>) -> Option<Seq<char>> {
    match s {
        Some(v) => Some(v@),
        None => None,
    }
}

/// Build an AuditTarget for an instance.
pub fn instance_target(instance_id: &str, account_id: &str, provider: &str) -> (t: AuditTarget)
    ensures
        t.target_type == TargetType::Instance,
        t.target_id@ == instance_id@,
        opt_view(t.account_id) == Some(account_id@),
        opt_view(t.provider) == Some(provider@),
        t.region is None,
{
    AuditTarget {
        target_type: TargetType::Instance,
        target_id: owned(instance_id),
        account_id: Some(owned(account_id)),
        provider: Some(owned(provider)),
        region: None,
    }
}

/// Build an AuditTarget for fleet-level operations.
pub fn fleet_target() -> (t: AuditTarget)
    ensures
        t.target_type == TargetType::Fleet,
        t.target_id@ == "fleet"@,
        t.account_id is None,
        t.provider is None,
        t.region is None,
{
    AuditTarget {
        target_type: TargetType::Fleet,
        target_id: owned("fleet"),
        account_id: None,
        provider: None,
        region: None,
    }
}

// ─── Records and the logger ──────────────────────────────────────────────────

/// The outcome of an audited action; `completed_at` is in milliseconds
/// since the Unix epoch.
pub struct AuditResult {
    pub success: bool,
    pub duration_ms: u64,
    pub error: Option<String>,
    pub affected_resources: Vec<String>,
    pub completed_at: i64,
}

/// An operator's confirmation of a pending action.
pub struct OperatorConfirmation {
    pub confirmed_by: String,
    pub confirmed_at: i64,
    pub channel: ConfirmationChannel,
    pub confirmation_text: String,
}

/// One audit record; ids are hyphenated UUIDs, `parameters` is JSON text,
/// `timestamp` is in milliseconds since the Unix epoch.
pub struct AuditRecord {
    pub record_id: String,
    pub correlation_id: String,
    pub timestamp: i64,
    pub agent: AgentId,
    pub action: AuditAction,
    pub target: AuditTarget,
    pub parameters: String,
    pub result: Option<AuditResult>,
    pub operator_confirmation: Option<OperatorConfirmation>,
    pub previous_hash: Option<String>,
    pub record_hash: String,
}

/// Filters of an audit query.
pub struct AuditFilter {
    pub account_id: Option<String>,
    pub instance_id: Option<String>,
    pub agent: Option<AgentId>,
    pub action: Option<AuditAction>,
    pub from: Option<i64>,
    pub to: Option<i64>,
    pub limit: Option<u32>,
}

/// Whether `r` is the record logged for an action, with record id `id`,
/// correlation id `corr` and time `now`, after the chain head `head`.
pub open spec fn logged_record(r: AuditRecord, head: Option<Seq<char>>, id: Seq<char>, corr: Seq<char>, now: i64) -> bool {
    &&& r.record_id@ == id
    &&& r.correlation_id@ == corr
    &&& r.timestamp == now
    &&& r.result is None
    &&& r.operator_confirmation is None
    &&& opt_view(r.previous_hash) == head
    &&& r.record_hash@ == id
}

/// Append-only audit logger: each record carries the hash of the one
/// logged before it.
pub struct AuditLogger {
    gf_api_base: String,
    gf_api_key: String,
    chain_head: Option<String>,
}

impl AuditLogger {
    /// The hash of the last record logged, if any.
    pub closed spec fn head(&self) -> Option<Seq<char>> {
        opt_view(self.chain_head)
    }

    /// A logger with an empty chain.
    pub fn new(gf_api_base: String, gf_api_key: String) -> (l: Self)
        ensures
            l.head() is None,
    {
        AuditLogger { gf_api_base, gf_api_key, chain_head: None }
    }

    /// Logs an action before it runs, as record `record_id` at `now`; the
    /// correlation id is the given one, else `fresh_correlation`. The
    /// record's hash is its id, and it becomes the chain head.
    pub fn log_action_at(
        &mut self,
        agent: AgentId,
        action: AuditAction,
        target: AuditTarget,
        parameters: String,
        correlation_id: Option<String>,
        record_id: String,
        fresh_correlation: String,
        now: i64,
    ) -> (r: AuditRecord)
        ensures
            logged_record(r, old(self).head(), record_id@,
                match correlation_id { Some(c) => c@, None => fresh_correlation@ }, now),
            r.agent == agent,
            r.action == action,
            r.target == target,
            r.parameters == parameters,
            final(self).head() == Some(record_id@),
    {
        let correlation_id = match correlation_id {
            Some(c) => c,
            None => fresh_correlation,
        };
        let record_hash = record_id.clone();
        let previous_hash = match &self.chain_head {
            Some(h) => Some(h.clone()),
            None => None,
        };
        self.chain_head = Some(record_hash.clone());
        AuditRecord {
            record_id,
            correlation_id,
            timestamp: now,
            agent,
            action,
            target,
            parameters,
            result: None,
            operator_confirmation: None,
            previous_hash,
            record_hash,
        }
    }

    /// Logs an action before it runs, with a fresh record id (and a fresh
    /// correlation id when none is given), at the current time.
    pub fn log_action(
        &mut self,
        agent: AgentId,
        action: AuditAction,
        target: AuditTarget,
        parameters: String,
        correlation_id: Option<String>,
    ) -> (r: AuditRecord)
        ensures
            exists|now: i64, corr: Seq<char>| #[trigger] logged_record(r, old(self).head(), r.record_id@, corr, now),
            correlation_id matches Some(c) ==> r.correlation_id@ == c@,
            r.agent == agent,
            r.action == action,
            r.target == target,
            r.parameters == parameters,
            final(self).head() == Some(r.record_id@),
    {
        let record_id = random_uuid();
        let fresh = random_uuid();
        let now = now_millis();
        self.log_action_at(agent, action, target, parameters, correlation_id, record_id, fresh, now)
    }

    /// Records the result of a logged action; nothing is kept by the node.
    pub fn log_result(&mut self, _record_id: &str, _result: AuditResult) -> (r: Result<(), String>)
        ensures
            r is Ok,
            final(self).head() == old(self).head(),
    {
        Ok(())
    }

    /// Records an operator confirmation; nothing is kept by the node.
    pub fn log_confirmation(&mut self, _record_id: &str, _confirmation: OperatorConfirmation) -> (r: Result<(), String>)
        ensures
            r is Ok,
            final(self).head() == old(self).head(),
    {
        Ok(())
    }

    /// Queries the trail; the node holds no records, so none come back.
    pub fn query(&self, _filter: AuditFilter) -> (r: Result<Vec<AuditRecord>, String>)
        ensures
            r matches Ok(v) && v@.len() == 0,
    {
        Ok(Vec::new())
    }
}

/// Each logged record points at the one logged just before it.
pub proof fn lemma_records_chain(
    h0: Option<Seq<char>>,
    r1: AuditRecord,
    id1: Seq<char>,
    c1: Seq<char>,
    t1: i64,
    r2: AuditRecord,
    id2: Seq<char>,
    c2: Seq<char>,
    t2: i64,
)
    requires
        logged_record(r1, h0, id1, c1, t1),
        logged_record(r2, Some(id1), id2, c2, t2),
    ensures
        opt_view(r2.previous_hash) == Some(r1.record_hash@),
{
}

} // verus!
