//! Fleet audit-trail vocabulary: which agent acted, what it did and on
//! what kind of target, with their display names.

use vstd::prelude::*;
use crate::text::owned;

verus! {

#[derive(Debug, Clone, Copy, PartialEq, Eq, Structural)]
pub enum AgentId {
    Commander,
    Guardian,
    Forge,
    Ledger,
    Triage,
    Briefer,
    System,
}

/// Lower-case display name of an agent.
pub open spec fn agent_label(a: AgentId) -> Seq<char> {
    match a {
        AgentId::Commander => "commander"@,
        AgentId::Guardian => "guardian"@,
        AgentId::Forge => "forge"@,
        AgentId::Ledger => "ledger"@,
        AgentId::Triage => "triage"@,
        AgentId::Briefer => "briefer"@,
        AgentId::System => "system"@,
    }
}

impl AgentId {
    /// The agent's display name (`commander`, `guardian`, ...).
    pub fn to_string(&self) -> (r: String)
        ensures
            r@ == agent_label(*self),
    {
        match self {
            AgentId::Commander => owned("commander"),
            AgentId::Guardian => owned("guardian"),
            AgentId::Forge => owned("forge"),
            AgentId::Ledger => owned("ledger"),
            AgentId::Triage => owned("triage"),
            AgentId::Briefer => owned("briefer"),
            AgentId::System => owned("system"),
        }
    }
}

#[derive(Debug, Clone, Copy, PartialEq, Eq, Structural)]
pub enum AuditAction {
    ProvisionPrimary,
    ProvisionStandby,
    TeardownInstance,
    ResizeInstance,
    InitiateAutoHeal,
    DockerRestartOpenclaw,
    TriggerFailover,
    PromoteStandby,
    ScheduleReprovision,
    PushConfig,
    RollbackConfig,
    GenerateCostReport,
    GenerateIncidentReport,
    UpdateProviderSelection,
    SilenceAlerts,
    OperatorConfirmationReceived,
    AgentSpawned,
    AgentTerminated,
}

/// Snake-case display name of an action, as it is serialized.
pub open spec fn action_label(a: AuditAction) -> Seq<char> {
    match a {
        AuditAction::ProvisionPrimary => "provision_primary"@,
        AuditAction::ProvisionStandby => "provision_standby"@,
        AuditAction::TeardownInstance => "teardown_instance"@,
        AuditAction::ResizeInstance => "resize_instance"@,
        AuditAction::InitiateAutoHeal => "initiate_auto_heal"@,
        AuditAction::DockerRestartOpenclaw => "docker_restart_openclaw"@,
        AuditAction::TriggerFailover => "trigger_failover"@,
        AuditAction::PromoteStandby => "promote_standby"@,
        AuditAction::ScheduleReprovision => "schedule_reprovision"@,
        AuditAction::PushConfig => "push_config"@,
        AuditAction::RollbackConfig => "rollback_config"@,
        AuditAction::GenerateCostReport => "generate_cost_report"@,
        AuditAction::GenerateIncidentReport => "generate_incident_report"@,
        AuditAction::UpdateProviderSelection => "update_provider_selection"@,
        AuditAction::SilenceAlerts => "silence_alerts"@,
        AuditAction::OperatorConfirmationReceived => "operator_confirmation_received"@,
        AuditAction::AgentSpawned => "agent_spawned"@,
        AuditAction::AgentTerminated => "agent_terminated"@,
    }
}

impl AuditAction {
    /// The action's display name (`provision_primary`, ...).
    pub fn to_string(&self) -> (r: String)
        ensures
            r@ == action_label(*self),
    {
        match self {
            AuditAction::ProvisionPrimary => owned("provision_primary"),
            AuditAction::ProvisionStandby => owned("provision_standby"),
            AuditAction::TeardownInstance => owned("teardown_instance"),
            AuditAction::ResizeInstance => owned("resize_instance"),
            AuditAction::InitiateAutoHeal => owned("initiate_auto_heal"),
            AuditAction::DockerRestartOpenclaw => owned("docker_restart_openclaw"),
            AuditAction::TriggerFailover => owned("trigger_failover"),
            AuditAction::PromoteStandby => owned("promote_standby"),
            AuditAction::ScheduleReprovision => owned("schedule_reprovision"),
            AuditAction::PushConfig => owned("push_config"),
            AuditAction::RollbackConfig => owned("rollback_config"),
            AuditAction::GenerateCostReport => owned("generate_cost_report"),
            AuditAction::GenerateIncidentReport => owned("generate_incident_report"),
            AuditAction::UpdateProviderSelection => owned("update_provider_selection"),
            AuditAction::SilenceAlerts => owned("silence_alerts"),
            AuditAction::OperatorConfirmationReceived => owned("operator_confirmation_received"),
            AuditAction::AgentSpawned => owned("agent_spawned"),
            AuditAction::AgentTerminated => owned("agent_terminated"),
        }
    }
}

#[derive(Debug, Clone, Copy, PartialEq, Eq, Structural)]
pub enum TargetType {
    Instance,
    Pair,
    Account,
    Fleet,
    Provider,
    Config,
    Agent,
}

} // verus!
