//! The Commander: classifies an operator's free-text request, routes it to
//! a specialist, checks proposed actions against the hard safety rules and
//! merges specialist results into one reply.
//!
//! Safety rules enforced by `safety_check`:
//! - never tear down an ACTIVE PRIMARY without a confirmed ACTIVE STANDBY;
//! - never delete at a provider without an audit log entry first;
//! - never push config to more instances than the direct-push limit;
//! - actions affecting more users than the threshold need confirmation.

use vstd::prelude::*;
use vstd::string::*;
use crate::proto::all_ascii;
use crate::text::{contains_str, decimal, has_infix, owned, push_decimal, push_str};
use crate::words::{extract_number, first_number, words};

verus! {

// ─── Intent ──────────────────────────────────────────────────────────────────

/// What the operator wants, classified from a free-text message.
#[derive(Debug, Clone, PartialEq, Eq)]
pub enum OperatorIntent {
    /// Provision new VPS pairs.
    ProvisionRequest { count: u32, tier_hint: Option<String> },
    /// Tear instances down.
    TeardownRequest { scope: TeardownScope },
    /// Cost query or analysis.
    CostQuery { detail: CostQueryDetail },
    /// Fleet or instance health query.
    HealthQuery { scope: HealthScope },
    /// Config push operation.
    ConfigPush { instance_count_hint: Option<u32> },
    /// Incident status or history query.
    IncidentQuery,
    /// Fleet-wide status overview.
    FleetStatus,
    /// Bulk operation across many instances.
    BulkOperation { operation: String, instance_count: u32 },
    /// The intent could not be determined.
    Unknown { raw_message: String },
}

#[derive(Debug, Clone, PartialEq, Eq)]
pub enum TeardownScope {
    /// Single instance by ID.
    Single { instance_id: String },
    /// All idle accounts.
    IdleAccounts,
    /// Operator-specified number of instances.
    Custom { count: u32 },
}

#[derive(Debug, Clone, Copy, PartialEq, Eq)]
pub enum CostQueryDetail {
    Waste,
    Projection,
    ProviderComparison,
    General,
}

#[derive(Debug, Clone, PartialEq, Eq)]
pub enum HealthScope {
    Fleet,
    Instance { instance_id: String },
    Provider { provider_name: String },
    Region { region_name: String },
}

/// Characters of an optional string.
pub open spec fn opt_chars(o: Option<String>) -> Option<Seq<char>> {
    match o {
        Some(s) => Some(s@),
        None => None,
    }
}

pub open spec fn unwrap_or_u32(o: Option<u32>, d: u32) -> u32 {
    match o {
        Some(n) => n,
        None => d,
    }
}

/// The tier named in a lower-cased message, first match in the order
/// enterprise, pro, nano, standard.
pub open spec fn tier_in(l: Seq<char>) -> Option<Seq<char>> {
    if has_infix(l, "enterprise"@) {
        Some("enterprise"@)
    } else if has_infix(l, "pro"@) {
        Some("pro"@)
    } else if has_infix(l, "nano"@) {
        Some("nano"@)
    } else if has_infix(l, "standard"@) {
        Some("standard"@)
    } else {
        None
    }
}

/// The bulk operation named in a lower-cased message.
pub open spec fn bulk_op_in(l: Seq<char>) -> Seq<char> {
    if has_infix(l, "restart"@) {
        "restart"@
    } else if has_infix(l, "config"@) {
        "config push"@
    } else if has_infix(l, "health"@) {
        "health check"@
    } else {
        "operation"@
    }
}

/// The tier named in `text`.
pub fn extract_tier(text: &str) -> (r: Option<String>)
    ensures
        opt_chars(r) == tier_in(text@),
{
    if contains_str(text, "enterprise") {
        Some(owned("enterprise"))
    } else if contains_str(text, "pro") {
        Some(owned("pro"))
    } else if contains_str(text, "nano") {
        Some(owned("nano"))
    } else if contains_str(text, "standard") {
        Some(owned("standard"))
    } else {
        None
    }
}

/// The bulk operation named in `text`.
pub fn extract_bulk_op(text: &str) -> (r: String)
    ensures
        r@ == bulk_op_in(text@),
{
    if contains_str(text, "restart") {
        owned("restart")
    } else if contains_str(text, "config") {
        owned("config push")
    } else if contains_str(text, "health") {
        owned("health check")
    } else {
        owned("operation")
    }
}

pub open spec fn provision_words(l: Seq<char>) -> bool {
    has_infix(l, "provision"@) || (has_infix(l, "create"@) && has_infix(l, "account"@))
}

pub open spec fn teardown_words(l: Seq<char>) -> bool {
    has_infix(l, "teardown"@) || has_infix(l, "tear down"@) || has_infix(l, "delete"@)
}

pub open spec fn cost_words(l: Seq<char>) -> bool {
    has_infix(l, "cost"@) || has_infix(l, "wast"@) || has_infix(l, "spend"@) || has_infix(l, "billing"@)
}

pub open spec fn cost_detail_in(l: Seq<char>) -> CostQueryDetail {
    if has_infix(l, "wast"@) || has_infix(l, "idle"@) {
        CostQueryDetail::Waste
    } else if has_infix(l, "project"@) || has_infix(l, "forecast"@) {
        CostQueryDetail::Projection
    } else if has_infix(l, "provider"@) || has_infix(l, "compare"@) {
        CostQueryDetail::ProviderComparison
    } else {
        CostQueryDetail::General
    }
}

pub open spec fn config_words(l: Seq<char>) -> bool {
    has_infix(l, "config"@) || (has_infix(l, "push"@) && has_infix(l, "model"@))
}

pub open spec fn incident_words(l: Seq<char>) -> bool {
    has_infix(l, "incident"@) || has_infix(l, "down"@) || has_infix(l, "outage"@)
}

pub open spec fn health_words(l: Seq<char>) -> bool {
    has_infix(l, "health"@) || has_infix(l, "status"@) || has_infix(l, "degraded"@)
}

pub open spec fn bulk_words(l: Seq<char>) -> bool {
    has_infix(l, "all instance"@) || has_infix(l, "bulk"@) || has_infix(l, "restart all"@)
}

pub open spec fn fleet_words(l: Seq<char>) -> bool {
    has_infix(l, "fleet"@) || has_infix(l, "overview"@) || has_infix(l, "summary"@)
}

/// `i` is the intent of a message `m` whose lower-cased form is `l`: the
/// first of the keyword rules that matches `l` decides it.
pub open spec fn intent_of(i: OperatorIntent, l: Seq<char>, m: Seq<char>) -> bool {
    let n = first_number(words(l));
    if provision_words(l) {
        i matches OperatorIntent::ProvisionRequest { count, tier_hint }
            && count == unwrap_or_u32(n, 1) && opt_chars(tier_hint) == tier_in(l)
    } else if teardown_words(l) {
        i matches OperatorIntent::TeardownRequest { scope }
            && if has_infix(l, "idle"@) {
                scope is IdleAccounts
            } else {
                scope == (TeardownScope::Custom { count: unwrap_or_u32(n, 1) })
            }
    } else if cost_words(l) {
        i == (OperatorIntent::CostQuery { detail: cost_detail_in(l) })
    } else if config_words(l) {
        i == (OperatorIntent::ConfigPush { instance_count_hint: n })
    } else if incident_words(l) {
        i is IncidentQuery
    } else if health_words(l) {
        i matches OperatorIntent::HealthQuery { scope } && scope is Fleet
    } else if bulk_words(l) {
        i matches OperatorIntent::BulkOperation { operation, instance_count }
            && operation@ == bulk_op_in(l) && instance_count == unwrap_or_u32(n, 0)
    } else if fleet_words(l) {
        i is FleetStatus
    } else {
        i matches OperatorIntent::Unknown { raw_message } && raw_message@ == m
    }
}

/// Unicode lower-case mapping of a text (`str::to_lowercase`).
pub uninterp spec fn lowercase(s: Seq<char>) -> Seq<char>;

/// An ASCII character in lower case: `A` to `Z` become `a` to `z`.
pub open spec fn ascii_lower_char(c: char) -> char {
    if 'A' <= c <= 'Z' { ((c as u32) + 32) as char } else { c }
}

/// An ASCII text in lower case.
pub open spec fn ascii_lower(s: Seq<char>) -> Seq<char> {
    s.map_values(|c: char| ascii_lower_char(c))
}

/// `str::to_lowercase`: its result is named `lowercase` of the argument.
/// On ASCII text the Unicode mapping lowers `A`–`Z` and keeps every other
/// character.
#[verifier::external_body]
fn to_lower(s: &str) -> (r: String)
    ensures
        r@ == lowercase(s@),
        all_ascii(s@) ==> r@ == ascii_lower(s@),
{
    s.to_lowercase()
}

/// Classifies `message` given its lower-cased form `lower`.
pub fn classify_intent(lower: &str, message: &str) -> (r: OperatorIntent)
    ensures
        intent_of(r, lower@, message@),
{
    if contains_str(lower, "provision") || contains_str(lower, "create") && contains_str(lower, "account") {
        let count = match extract_number(lower) {
            Some(n) => n,
            None => 1,
        };
        let tier_hint = extract_tier(lower);
        return OperatorIntent::ProvisionRequest { count, tier_hint };
    }
    if contains_str(lower, "teardown") || contains_str(lower, "tear down") || contains_str(lower, "delete") {
        let scope = if contains_str(lower, "idle") {
            TeardownScope::IdleAccounts
        } else {
            let count = match extract_number(lower) {
                Some(n) => n,
                None => 1,
            };
            TeardownScope::Custom { count }
        };
        return OperatorIntent::TeardownRequest { scope };
    }
    if contains_str(lower, "cost") || contains_str(lower, "wast") || contains_str(lower, "spend")
        || contains_str(lower, "billing") {
        let detail = if contains_str(lower, "wast") || contains_str(lower, "idle") {
            CostQueryDetail::Waste
        } else if contains_str(lower, "project") || contains_str(lower, "forecast") {
            CostQueryDetail::Projection
        } else if contains_str(lower, "provider") || contains_str(lower, "compare") {
            CostQueryDetail::ProviderComparison
        } else {
            CostQueryDetail::General
        };
        return OperatorIntent::CostQuery { detail };
    }
    if contains_str(lower, "config") || contains_str(lower, "push") && contains_str(lower, "model") {
        let instance_count_hint = extract_number(lower);
        return OperatorIntent::ConfigPush { instance_count_hint };
    }
    if contains_str(lower, "incident") || contains_str(lower, "down") || contains_str(lower, "outage") {
        return OperatorIntent::IncidentQuery;
    }
    if contains_str(lower, "health") || contains_str(lower, "status") || contains_str(lower, "degraded") {
        return OperatorIntent::HealthQuery { scope: HealthScope::Fleet };
    }
    if contains_str(lower, "all instance") || contains_str(lower, "bulk") || contains_str(lower, "restart all") {
        let count = match extract_number(lower) {
            Some(n) => n,
            None => 0,
        };
        return OperatorIntent::BulkOperation { operation: extract_bulk_op(lower), instance_count: count };
    }
    if contains_str(lower, "fleet") || contains_str(lower, "overview") || contains_str(lower, "summary") {
        return OperatorIntent::FleetStatus;
    }
    OperatorIntent::Unknown { raw_message: owned(message) }
}

// ─── Specialists ─────────────────────────────────────────────────────────────

/// Which specialist agent should handle a request, and what to ask it.
#[derive(Debug, Clone)]
pub enum SpecialistAction {
    /// Spawn the Forge agent for provisioning.
    SpawnForge { task: String },
    /// Send to Guardian for health work.
    SendToGuardian { task: String },
    /// Send to Ledger for cost analysis.
    SendToLedger { task: String },
    /// Spawn Triage for incident investigation.
    SpawnTriage { task: String },
    /// Handle directly in the Commander (simple status queries).
    HandleDirectly { task: String },
}

/// The structured result a specialist agent returns, with what the reply
/// is built from.
#[derive(Debug, Clone)]
pub enum SpecialistResult {
    FleetStatusResult { summary: String, active_pairs: u32 },
    HealthResult { summary: String, degraded: u32, failed: u32 },
    CostResult { summary: String },
    ProvisionResult { success_count: u32, failed_count: u32, summary: String },
    IncidentResult { summary: String },
    OptimizationResult { optimization_count: usize, summary: String },
    ProviderComparisonResult { summary: String },
    BriefingResult { summary: String },
    GenericResult { summary: String },
}

// ─── Safety rules ────────────────────────────────────────────────────────────

/// Hard safety constraints.
#[derive(Debug, Clone, Copy)]
pub struct SafetyRules {
    /// Max users an action can affect without explicit confirmation.
    pub max_affected_users_without_confirm: u32,
    /// Max cost spike, in whole percent above projection, before an action
    /// needs confirmation.
    pub max_cost_spike_percent: u32,
    /// Standby must be ACTIVE before any teardown of a primary.
    pub require_standby_before_teardown: bool,
    /// Max instances for a non-rolling config push.
    pub max_instances_direct_config_push: u32,
    /// An audit log entry must exist before any provider delete.
    pub require_audit_before_delete: bool,
}

impl Default for SafetyRules {
    fn default() -> (r: Self)
        ensures
            r.max_affected_users_without_confirm == 10,
            r.max_cost_spike_percent == 20,
            r.require_standby_before_teardown,
            r.max_instances_direct_config_push == 100,
            r.require_audit_before_delete,
    {
        SafetyRules {
            max_affected_users_without_confirm: 10,
            max_cost_spike_percent: 20,
            require_standby_before_teardown: true,
            max_instances_direct_config_push: 100,
            require_audit_before_delete: true,
        }
    }
}

/// The outcome of a safety check.
#[derive(Debug, Clone, PartialEq, Eq)]
pub enum SafetyResult {
    /// The action may proceed.
    Approved,
    /// The action needs explicit operator confirmation first.
    RequiresConfirmation { reason: String },
    /// The action is blocked: a safety invariant would be violated.
    Blocked { reason: String },
}

#[derive(Debug, Clone, Copy, PartialEq, Eq, Structural)]
pub enum ActionType {
    Provision,
    Teardown,
    ConfigPush,
    TierResize,
    Failover,
    BulkOperation,
    CostAction,
}

/// A proposed action to be safety-checked.
#[derive(Debug, Clone, Copy)]
pub struct Action {
    pub action_type: ActionType,
    pub affected_users: u32,
    pub affected_instance_count: u32,
    pub is_primary_teardown: bool,
    pub standby_confirmed_active: bool,
    pub has_audit_log_entry: bool,
}

/// Teardown of a primary whose standby is not confirmed ACTIVE.
pub open spec fn unconfirmed_primary_teardown(rules: SafetyRules, a: Action) -> bool {
    a.action_type == ActionType::Teardown && a.is_primary_teardown && rules.require_standby_before_teardown
        && !a.standby_confirmed_active
}

/// Provider delete without an audit log entry.
pub open spec fn unaudited_delete(rules: SafetyRules, a: Action) -> bool {
    a.action_type == ActionType::Teardown && rules.require_audit_before_delete && !a.has_audit_log_entry
}

/// Config push beyond the direct-push limit.
pub open spec fn oversized_config_push(rules: SafetyRules, a: Action) -> bool {
    a.action_type == ActionType::ConfigPush && a.affected_instance_count > rules.max_instances_direct_config_push
}

/// `r` is the verdict on `a` under `rules`: the first rule that applies
/// decides, with its message.
pub open spec fn safety_verdict(rules: SafetyRules, a: Action, r: SafetyResult) -> bool {
    if unconfirmed_primary_teardown(rules, a) {
        r matches SafetyResult::Blocked { reason }
            && reason@ == "SAFETY: Cannot teardown ACTIVE PRIMARY — standby is not confirmed ACTIVE"@
    } else if unaudited_delete(rules, a) {
        r matches SafetyResult::Blocked { reason }
            && reason@ == "SAFETY: Cannot execute provider delete without audit log entry"@
    } else if oversized_config_push(rules, a) {
        r matches SafetyResult::Blocked { reason }
            && reason@ == "SAFETY: Config push to "@ + decimal(a.affected_instance_count as nat)
                + " instances requires rolling validation (max direct: "@
                + decimal(rules.max_instances_direct_config_push as nat) + ")"@
    } else if a.affected_users > rules.max_affected_users_without_confirm {
        r matches SafetyResult::RequiresConfirmation { reason }
            && reason@ == "Action affects "@ + decimal(a.affected_users as nat)
                + " users — explicit confirmation required (threshold: "@
                + decimal(rules.max_affected_users_without_confirm as nat) + ")"@
    } else {
        r is Approved
    }
}

/// A teardown of a primary whose standby is not confirmed ACTIVE is never
/// approved, nor merely sent for confirmation: it is blocked.
pub proof fn lemma_unconfirmed_primary_teardown_blocked(rules: SafetyRules, a: Action, r: SafetyResult)
    requires
        safety_verdict(rules, a, r),
        a.action_type == ActionType::Teardown,
        a.is_primary_teardown,
        !a.standby_confirmed_active,
        rules.require_standby_before_teardown,
    ensures
        r is Blocked,
{
}

/// An approved action breaks none of the rules: no unconfirmed primary
/// teardown, no unaudited delete, no oversized config push, and no more
/// affected users than the threshold.
pub proof fn lemma_approved_within_limits(rules: SafetyRules, a: Action, r: SafetyResult)
    requires
        safety_verdict(rules, a, r),
        r is Approved,
    ensures
        !unconfirmed_primary_teardown(rules, a),
        !unaudited_delete(rules, a),
        a.action_type == ActionType::ConfigPush ==> a.affected_instance_count <= rules.max_instances_direct_config_push,
        a.affected_users <= rules.max_affected_users_without_confirm,
{
}

// ─── Routing ─────────────────────────────────────────────────────────────────

/// `{:?}` of a string: quoted, with escapes (`<str as Debug>::fmt`).
pub uninterp spec fn debug_str(s: Seq<char>) -> Seq<char>;

/// `format!("{:?}", s)`: its result is named `debug_str` of the argument.
#[verifier::external_body]
fn debug_quoted(s: &str) -> (r: String)
    ensures
        r@ == debug_str(s@),
{
    format!("{:?}", s)
}

/// `{:?}` of a health scope, as its derived `Debug` prints it.
pub open spec fn scope_debug(scope: HealthScope) -> Seq<char> {
    match scope {
        HealthScope::Fleet => "Fleet"@,
        HealthScope::Instance { instance_id } => "Instance { instance_id: "@ + debug_str(instance_id@) + " }"@,
        HealthScope::Provider { provider_name } => "Provider { provider_name: "@ + debug_str(provider_name@) + " }"@,
        HealthScope::Region { region_name } => "Region { region_name: "@ + debug_str(region_name@) + " }"@,
    }
}

fn scope_text(scope: &HealthScope) -> (r: String)
    ensures
        r@ == scope_debug(*scope),
{
    match scope {
        HealthScope::Fleet => owned("Fleet"),
        HealthScope::Instance { instance_id } => {
            let mut m = owned("Instance { instance_id: ");
            let q = debug_quoted(instance_id.as_str());
            push_str(&mut m, q.as_str());
            push_str(&mut m, " }");
            m
        },
        HealthScope::Provider { provider_name } => {
            let mut m = owned("Provider { provider_name: ");
            let q = debug_quoted(provider_name.as_str());
            push_str(&mut m, q.as_str());
            push_str(&mut m, " }");
            m
        },
        HealthScope::Region { region_name } => {
            let mut m = owned("Region { region_name: ");
            let q = debug_quoted(region_name.as_str());
            push_str(&mut m, q.as_str());
            push_str(&mut m, " }");
            m
        },
    }
}

/// `a` is the routing of intent `i` when direct config pushes are limited
/// to `max_push` instances.
pub open spec fn route_of(max_push: u32, i: OperatorIntent, a: SpecialistAction) -> bool {
    match i {
        OperatorIntent::ProvisionRequest { count, tier_hint } => a matches SpecialistAction::SpawnForge { task }
            && task@ == "Provision "@ + decimal(count as nat) + " pairs (tier: "@ + (match tier_hint {
                Some(t) => t@,
                None => "standard"@,
            }) + ")"@,
        OperatorIntent::TeardownRequest { scope } => match scope {
            TeardownScope::IdleAccounts => a matches SpecialistAction::SendToLedger { task }
                && task@ == "Execute teardown of idle accounts with archive"@,
            TeardownScope::Single { instance_id } => a matches SpecialistAction::SpawnForge { task }
                && task@ == "Teardown instance "@ + instance_id@,
            TeardownScope::Custom { count } => a matches SpecialistAction::SpawnForge { task }
                && task@ == "Teardown "@ + decimal(count as nat) + " instances"@,
        },
        OperatorIntent::CostQuery { detail } => a matches SpecialistAction::SendToLedger { task }
            && task@ == (if detail is ProviderComparison {
                "Generate provider comparison report"@
            } else {
                "Generate cost analysis report"@
            }),
        OperatorIntent::HealthQuery { scope } => a matches SpecialistAction::SendToGuardian { task }
            && task@ == "Run health sweep: "@ + scope_debug(scope),
        OperatorIntent::ConfigPush { instance_count_hint } => {
            let count = unwrap_or_u32(instance_count_hint, 0);
            if count > max_push {
                a matches SpecialistAction::HandleDirectly { task }
                    && task@ == "Config push to "@ + decimal(count as nat) + " instances — requires rolling push (>"@
                        + decimal(max_push as nat) + ")"@
            } else {
                a matches SpecialistAction::SendToGuardian { task } && task@ == "Execute config push"@
            }
        },
        OperatorIntent::IncidentQuery => a matches SpecialistAction::SpawnTriage { task }
            && task@ == "Investigate and report current incident"@,
        OperatorIntent::FleetStatus | OperatorIntent::Unknown { .. } => a matches SpecialistAction::HandleDirectly { task }
            && task@ == "Return fleet status overview"@,
        OperatorIntent::BulkOperation { operation, instance_count } => a matches SpecialistAction::SendToGuardian { task }
            && task@ == "Bulk "@ + operation@ + " across "@ + decimal(instance_count as nat) + " instances"@,
    }
}

// ─── Replies ─────────────────────────────────────────────────────────────────

/// The reply line for one specialist result.
pub open spec fn result_line(r: SpecialistResult) -> Seq<char> {
    match r {
        SpecialistResult::FleetStatusResult { summary, active_pairs } =>
            "[CMD] Fleet: "@ + decimal(active_pairs as nat) + " active pairs. "@ + summary@,
        SpecialistResult::HealthResult { summary, degraded, failed } =>
            "[CMD] Health: "@ + decimal(degraded as nat) + " degraded, "@ + decimal(failed as nat) + " failed. "@ + summary@,
        SpecialistResult::CostResult { summary } => "[Ledger] "@ + summary@,
        SpecialistResult::ProvisionResult { success_count, failed_count, summary } =>
            "[CMD] Provisioned "@ + decimal(success_count as nat) + "/"@ + decimal((success_count + failed_count) as nat)
                + " pairs. "@ + summary@,
        SpecialistResult::IncidentResult { summary } => "[CMD] "@ + summary@,
        SpecialistResult::OptimizationResult { optimization_count, summary } =>
            "[Ledger] "@ + decimal(optimization_count as nat) + " optimisation(s) recommended. "@ + summary@,
        SpecialistResult::ProviderComparisonResult { summary } => "[Ledger] "@ + summary@,
        SpecialistResult::BriefingResult { summary } => "[Briefer] "@ + summary@,
        SpecialistResult::GenericResult { summary } => "[CMD] "@ + summary@,
    }
}

/// The reply lines of `rs`, joined with newlines.
pub open spec fn joined_lines(rs: Seq<SpecialistResult>) -> Seq<char>
    decreases rs.len(),
{
    if rs.len() == 0 {
        Seq::empty()
    } else if rs.len() == 1 {
        result_line(rs[0])
    } else {
        joined_lines(rs.drop_last()) + "\n"@ + result_line(rs.last())
    }
}

/// The whole reply to a list of specialist results.
pub open spec fn reply_for(rs: Seq<SpecialistResult>) -> Seq<char> {
    if rs.len() == 0 {
        "[CMD] No results from specialists."@
    } else {
        joined_lines(rs)
    }
}

fn line_for(r: &SpecialistResult) -> (s: String)
    ensures
        s@ == result_line(*r),
{
    match r {
        SpecialistResult::FleetStatusResult { summary, active_pairs } => {
            let mut m = owned("[CMD] Fleet: ");
            push_decimal(&mut m, *active_pairs as u64);
            push_str(&mut m, " active pairs. ");
            push_str(&mut m, summary.as_str());
            m
        },
        SpecialistResult::HealthResult { summary, degraded, failed } => {
            let mut m = owned("[CMD] Health: ");
            push_decimal(&mut m, *degraded as u64);
            push_str(&mut m, " degraded, ");
            push_decimal(&mut m, *failed as u64);
            push_str(&mut m, " failed. ");
            push_str(&mut m, summary.as_str());
            m
        },
        SpecialistResult::CostResult { summary } => {
            let mut m = owned("[Ledger] ");
            push_str(&mut m, summary.as_str());
            m
        },
        SpecialistResult::ProvisionResult { success_count, failed_count, summary } => {
            let mut m = owned("[CMD] Provisioned ");
            push_decimal(&mut m, *success_count as u64);
            push_str(&mut m, "/");
            push_decimal(&mut m, *success_count as u64 + *failed_count as u64);
            push_str(&mut m, " pairs. ");
            push_str(&mut m, summary.as_str());
            m
        },
        SpecialistResult::IncidentResult { summary } => {
            let mut m = owned("[CMD] ");
            push_str(&mut m, summary.as_str());
            m
        },
        SpecialistResult::OptimizationResult { optimization_count, summary } => {
            let mut m = owned("[Ledger] ");
            push_decimal(&mut m, *optimization_count as u64);
            push_str(&mut m, " optimisation(s) recommended. ");
            push_str(&mut m, summary.as_str());
            m
        },
        SpecialistResult::ProviderComparisonResult { summary } => {
            let mut m = owned("[Ledger] ");
            push_str(&mut m, summary.as_str());
            m
        },
        SpecialistResult::BriefingResult { summary } => {
            let mut m = owned("[Briefer] ");
            push_str(&mut m, summary.as_str());
            m
        },
        SpecialistResult::GenericResult { summary } => {
            let mut m = owned("[CMD] ");
            push_str(&mut m, summary.as_str());
            m
        },
    }
}

// ─── Engine ──────────────────────────────────────────────────────────────────

/// The orchestration brain of the operator team.
pub struct CommanderEngine {
    pub safety_rules: SafetyRules,
}

impl CommanderEngine {
    pub fn new() -> (r: Self)
        ensures
            r.safety_rules.max_affected_users_without_confirm == 10,
            r.safety_rules.max_cost_spike_percent == 20,
            r.safety_rules.require_standby_before_teardown,
            r.safety_rules.max_instances_direct_config_push == 100,
            r.safety_rules.require_audit_before_delete,
    {
        CommanderEngine { safety_rules: SafetyRules::default() }
    }

    pub fn with_safety_rules(safety_rules: SafetyRules) -> (r: Self)
        ensures
            r.safety_rules == safety_rules,
    {
        CommanderEngine { safety_rules }
    }

    /// Classifies the operator's free-text `message` by keywords of its
    /// lower-cased form.
    pub fn parse_intent(&self, message: &str) -> (r: OperatorIntent)
        ensures
            intent_of(r, lowercase(message@), message@),
            all_ascii(message@) ==> intent_of(r, ascii_lower(message@), message@),
    {
        let lower = to_lower(message);
        classify_intent(lower.as_str(), message)
    }

    /// The specialist that handles `intent`, with its task.
    pub fn route_to_specialist(&self, intent: &OperatorIntent) -> (r: SpecialistAction)
        ensures
            route_of(self.safety_rules.max_instances_direct_config_push, *intent, r),
    {
        match intent {
            OperatorIntent::ProvisionRequest { count, tier_hint } => {
                let mut m = owned("Provision ");
                push_decimal(&mut m, *count as u64);
                push_str(&mut m, " pairs (tier: ");
                match tier_hint {
                    Some(t) => push_str(&mut m, t.as_str()),
                    None => push_str(&mut m, "standard"),
                }
                push_str(&mut m, ")");
                SpecialistAction::SpawnForge { task: m }
            },
            OperatorIntent::TeardownRequest { scope } => match scope {
                TeardownScope::IdleAccounts => SpecialistAction::SendToLedger {
                    task: owned("Execute teardown of idle accounts with archive"),
                },
                TeardownScope::Single { instance_id } => {
                    let mut m = owned("Teardown instance ");
                    push_str(&mut m, instance_id.as_str());
                    SpecialistAction::SpawnForge { task: m }
                },
                TeardownScope::Custom { count } => {
                    let mut m = owned("Teardown ");
                    push_decimal(&mut m, *count as u64);
                    push_str(&mut m, " instances");
                    SpecialistAction::SpawnForge { task: m }
                },
            },
            OperatorIntent::CostQuery { detail } => match detail {
                CostQueryDetail::ProviderComparison => SpecialistAction::SendToLedger {
                    task: owned("Generate provider comparison report"),
                },
                _ => SpecialistAction::SendToLedger { task: owned("Generate cost analysis report") },
            },
            OperatorIntent::HealthQuery { scope } => {
                let mut m = owned("Run health sweep: ");
                let d = scope_text(scope);
                push_str(&mut m, d.as_str());
                SpecialistAction::SendToGuardian { task: m }
            },
            OperatorIntent::ConfigPush { instance_count_hint } => {
                let count = match instance_count_hint {
                    Some(n) => *n,
                    None => 0,
                };
                let max_push = self.safety_rules.max_instances_direct_config_push;
                if count > max_push {
                    let mut m = owned("Config push to ");
                    push_decimal(&mut m, count as u64);
                    push_str(&mut m, " instances — requires rolling push (>");
                    push_decimal(&mut m, max_push as u64);
                    push_str(&mut m, ")");
                    SpecialistAction::HandleDirectly { task: m }
                } else {
                    SpecialistAction::SendToGuardian { task: owned("Execute config push") }
                }
            },
            OperatorIntent::IncidentQuery => SpecialistAction::SpawnTriage {
                task: owned("Investigate and report current incident"),
            },
            OperatorIntent::FleetStatus | OperatorIntent::Unknown { .. } => SpecialistAction::HandleDirectly {
                task: owned("Return fleet status overview"),
            },
            OperatorIntent::BulkOperation { operation, instance_count } => {
                let mut m = owned("Bulk ");
                push_str(&mut m, operation.as_str());
                push_str(&mut m, " across ");
                push_decimal(&mut m, *instance_count as u64);
                push_str(&mut m, " instances");
                SpecialistAction::SendToGuardian { task: m }
            },
        }
    }

    /// Checks `action` against the hard safety rules and the user-count
    /// threshold. The cost-spike threshold compares floating-point
    /// percentages and is applied by the caller to an `Approved` verdict.
    pub fn safety_check(&self, action: &Action) -> (r: SafetyResult)
        ensures
            safety_verdict(self.safety_rules, *action, r),
    {
        let rules = self.safety_rules;
        if action.action_type == ActionType::Teardown && action.is_primary_teardown
            && rules.require_standby_before_teardown && !action.standby_confirmed_active {
            return SafetyResult::Blocked {
                reason: owned("SAFETY: Cannot teardown ACTIVE PRIMARY — standby is not confirmed ACTIVE"),
            };
        }
        if action.action_type == ActionType::Teardown && rules.require_audit_before_delete
            && !action.has_audit_log_entry {
            return SafetyResult::Blocked {
                reason: owned("SAFETY: Cannot execute provider delete without audit log entry"),
            };
        }
        if action.action_type == ActionType::ConfigPush
            && action.affected_instance_count > rules.max_instances_direct_config_push {
            let mut m = owned("SAFETY: Config push to ");
            push_decimal(&mut m, action.affected_instance_count as u64);
            push_str(&mut m, " instances requires rolling validation (max direct: ");
            push_decimal(&mut m, rules.max_instances_direct_config_push as u64);
            push_str(&mut m, ")");
            return SafetyResult::Blocked { reason: m };
        }
        if action.affected_users > rules.max_affected_users_without_confirm {
            let mut m = owned("Action affects ");
            push_decimal(&mut m, action.affected_users as u64);
            push_str(&mut m, " users — explicit confirmation required (threshold: ");
            push_decimal(&mut m, rules.max_affected_users_without_confirm as u64);
            push_str(&mut m, ")");
            return SafetyResult::RequiresConfirmation { reason: m };
        }
        SafetyResult::Approved
    }

    /// Merges specialist results into one reply, a line per result.
    pub fn synthesize_response(&self, results: Vec<SpecialistResult>) -> (r: String)
        ensures
            r@ == reply_for(results@),
    {
        if results.len() == 0 {
            return owned("[CMD] No results from specialists.");
        }
        let mut out = line_for(&results[0]);
        let mut i: usize = 1;
        assert(results@.take(1) =~= seq![results@[0]]);
        while i < results.len()
            invariant
                1 <= i <= results.len(),
                out@ == joined_lines(results@.take(i as int)),
            decreases results.len() - i,
        {
            let line = line_for(&results[i]);
            push_str(&mut out, "\n");
            push_str(&mut out, line.as_str());
            proof {
                let t = results@.take(i + 1);
                assert(t.drop_last() =~= results@.take(i as int));
                assert(t.last() == results@[i as int]);
            }
            i = i + 1;
        }
        assert(results@.take(results.len() as int) =~= results@);
        out
    }
}

impl Default for CommanderEngine {
    fn default() -> (r: Self)
        ensures
            r.safety_rules.max_affected_users_without_confirm == 10,
            r.safety_rules.max_cost_spike_percent == 20,
            r.safety_rules.require_standby_before_teardown,
            r.safety_rules.max_instances_direct_config_push == 100,
            r.safety_rules.require_audit_before_delete,
    {
        Self::new()
    }
}

/// How a cost question is read: a message whose lower-cased form `l` asks
/// nothing of provisioning or teardown and speaks of cost, waste, spend or
/// billing is a cost query; it asks about waste when it says `wast` or
/// `idle`, else about projections when it says `project` or `forecast`,
/// else for a provider comparison when it says `provider` or `compare`,
/// and otherwise for the general figures.
pub proof fn lemma_cost_query_detail(i: OperatorIntent, l: Seq<char>, m: Seq<char>)
    requires
        intent_of(i, l, m),
        !has_infix(l, "provision"@),
        !(has_infix(l, "create"@) && has_infix(l, "account"@)),
        !has_infix(l, "teardown"@),
        !has_infix(l, "tear down"@),
        !has_infix(l, "delete"@),
        has_infix(l, "cost"@) || has_infix(l, "wast"@) || has_infix(l, "spend"@) || has_infix(l, "billing"@),
    ensures
        has_infix(l, "wast"@) || has_infix(l, "idle"@)
            ==> i == (OperatorIntent::CostQuery { detail: CostQueryDetail::Waste }),
        !(has_infix(l, "wast"@) || has_infix(l, "idle"@)) && (has_infix(l, "project"@) || has_infix(l, "forecast"@))
            ==> i == (OperatorIntent::CostQuery { detail: CostQueryDetail::Projection }),
        !(has_infix(l, "wast"@) || has_infix(l, "idle"@)) && !(has_infix(l, "project"@) || has_infix(l, "forecast"@))
            && (has_infix(l, "provider"@) || has_infix(l, "compare"@))
            ==> i == (OperatorIntent::CostQuery { detail: CostQueryDetail::ProviderComparison }),
        !(has_infix(l, "wast"@) || has_infix(l, "idle"@)) && !(has_infix(l, "project"@) || has_infix(l, "forecast"@))
            && !(has_infix(l, "provider"@) || has_infix(l, "compare"@))
            ==> i == (OperatorIntent::CostQuery { detail: CostQueryDetail::General }),
{
}

/// Which kind of intent a message is, from the keywords of its lower-cased
/// form `l`, the first that applies deciding: `provision` (or `create`
/// with `account`) asks to provision; `teardown`, `tear down` or `delete`
/// to tear down (idle accounts when it says `idle`); cost words make a cost
/// query; `config` (or `push` with `model`) a config push; `incident`,
/// `down` or `outage` an incident query; `health`, `status` or `degraded`
/// a fleet health query; `all instance`, `bulk` or `restart all` a bulk
/// operation; `fleet`, `overview` or `summary` a fleet status; anything
/// else is unknown and keeps the message as it was written.
pub proof fn lemma_intent_kind(i: OperatorIntent, l: Seq<char>, m: Seq<char>)
    requires
        intent_of(i, l, m),
    ensures
        has_infix(l, "provision"@) ==> i is ProvisionRequest,
        !has_infix(l, "provision"@) && !(has_infix(l, "create"@) && has_infix(l, "account"@))
            && (has_infix(l, "teardown"@) || has_infix(l, "tear down"@) || has_infix(l, "delete"@))
            ==> (i matches OperatorIntent::TeardownRequest { scope }
                && (has_infix(l, "idle"@) <==> scope is IdleAccounts)),
        !has_infix(l, "provision"@) && !(has_infix(l, "create"@) && has_infix(l, "account"@))
            && !(has_infix(l, "teardown"@) || has_infix(l, "tear down"@) || has_infix(l, "delete"@))
            && !(has_infix(l, "cost"@) || has_infix(l, "wast"@) || has_infix(l, "spend"@) || has_infix(l, "billing"@))
            ==> {
                if has_infix(l, "config"@) || (has_infix(l, "push"@) && has_infix(l, "model"@)) {
                    i is ConfigPush
                } else if has_infix(l, "incident"@) || has_infix(l, "down"@) || has_infix(l, "outage"@) {
                    i is IncidentQuery
                } else if has_infix(l, "health"@) || has_infix(l, "status"@) || has_infix(l, "degraded"@) {
                    i matches OperatorIntent::HealthQuery { scope } && scope is Fleet
                } else if has_infix(l, "all instance"@) || has_infix(l, "bulk"@) || has_infix(l, "restart all"@) {
                    i is BulkOperation
                } else if has_infix(l, "fleet"@) || has_infix(l, "overview"@) || has_infix(l, "summary"@) {
                    i is FleetStatus
                } else {
                    i matches OperatorIntent::Unknown { raw_message } && raw_message@ == m
                }
            },
{
}

} // verus!
