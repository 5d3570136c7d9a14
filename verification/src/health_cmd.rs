//! The decisions of the node's health commands: reading the node's
//! configured tier, role and provider, whether the OpenClaw and Docker
//! checks count as passing, and the state a health score puts the node in.
//! Measuring the machine is the caller's part.

use vstd::prelude::*;
use vstd::string::*;
use crate::health::HealthThresholds;
use crate::proto::{InstanceRole, InstanceState, InstanceTier, ServiceStatus, VpsProvider};
use crate::text::{contains_str, has_infix, str_equal};

verus! {

/// The tier a configuration names: `nano`, `pro` and `enterprise` are
/// read as such, anything else as `Standard`.
pub open spec fn tier_named(s: Seq<char>) -> InstanceTier {
    if s == "nano"@ {
        InstanceTier::Nano
    } else if s == "pro"@ {
        InstanceTier::Pro
    } else if s == "enterprise"@ {
        InstanceTier::Enterprise
    } else {
        InstanceTier::Standard
    }
}

/// The role a configuration names: `standby`, else `Primary`.
pub open spec fn role_named(s: Seq<char>) -> InstanceRole {
    if s == "standby"@ { InstanceRole::Standby } else { InstanceRole::Primary }
}

/// The provider a configuration names; anything unknown is `Hetzner`.
pub open spec fn provider_named(s: Seq<char>) -> VpsProvider {
    if s == "vultr"@ {
        VpsProvider::Vultr
    } else if s == "contabo"@ {
        VpsProvider::Contabo
    } else if s == "hostinger"@ {
        VpsProvider::Hostinger
    } else if s == "digitalocean"@ {
        VpsProvider::DigitalOcean
    } else {
        VpsProvider::Hetzner
    }
}

/// Reads a configured tier.
pub fn tier_from_config(s: &str) -> (t: InstanceTier)
    ensures
        t == tier_named(s@),
{
    if str_equal(s, "nano") {
        InstanceTier::Nano
    } else if str_equal(s, "pro") {
        InstanceTier::Pro
    } else if str_equal(s, "enterprise") {
        InstanceTier::Enterprise
    } else {
        InstanceTier::Standard
    }
}

/// Reads a configured role.
pub fn role_from_config(s: &str) -> (r: InstanceRole)
    ensures
        r == role_named(s@),
{
    if str_equal(s, "standby") { InstanceRole::Standby } else { InstanceRole::Primary }
}

/// Reads a configured provider.
pub fn provider_from_config(s: &str) -> (p: VpsProvider)
    ensures
        p == provider_named(s@),
{
    if str_equal(s, "vultr") {
        VpsProvider::Vultr
    } else if str_equal(s, "contabo") {
        VpsProvider::Contabo
    } else if str_equal(s, "hostinger") {
        VpsProvider::Hostinger
    } else if str_equal(s, "digitalocean") {
        VpsProvider::DigitalOcean
    } else {
        VpsProvider::Hetzner
    }
}

/// OpenClaw counts as down only on a node expected to run it (its
/// `services` label mentions `openclaw`) where no OpenClaw process runs.
pub fn openclaw_status(running: bool, services_label: Option<&str>) -> (s: ServiceStatus)
    ensures
        s == (if !running && (services_label matches Some(l) && has_infix(l@, "openclaw"@)) {
            ServiceStatus::Down
        } else {
            ServiceStatus::Healthy
        }),
{
    let expects = match services_label {
        Some(l) => contains_str(l, "openclaw"),
        None => false,
    };
    if running || !expects { ServiceStatus::Healthy } else { ServiceStatus::Down }
}

/// Docker counts as running when it answers, or when it is not installed.
pub fn docker_ok(running: bool, cli_present: bool) -> (b: bool)
    ensures
        b == (running || !cli_present),
{
    running || !cli_present
}

/// The state a health score puts a node in: active from the degraded
/// threshold up, degraded from the critical threshold up, else failed.
pub open spec fn score_state(score: u8, t: HealthThresholds) -> InstanceState {
    if score >= t.degraded_score {
        InstanceState::Active
    } else if score >= t.critical_score {
        InstanceState::Degraded
    } else {
        InstanceState::Failed
    }
}

/// How bad a state is: active 0, degraded 1, failed 2.
pub open spec fn badness(s: InstanceState) -> int {
    match s {
        InstanceState::Active => 0,
        InstanceState::Degraded => 1,
        _ => 2,
    }
}

/// The state for a health score.
pub fn state_for_score(score: u8, thresholds: &HealthThresholds) -> (s: InstanceState)
    ensures
        s == score_state(score, *thresholds),
{
    if score >= thresholds.degraded_score {
        InstanceState::Active
    } else if score >= thresholds.critical_score {
        InstanceState::Degraded
    } else {
        InstanceState::Failed
    }
}

/// A higher health score never puts a node in a worse state.
pub proof fn lemma_state_monotone(a: u8, b: u8, t: HealthThresholds)
    requires
        a <= b,
    ensures
        badness(score_state(b, t)) <= badness(score_state(a, t)),
{
}

} // verus!
