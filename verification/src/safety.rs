//! Guards for the hard safety rules of fleet operations:
//! 1. never tear down an ACTIVE PRIMARY unless its STANDBY is ACTIVE;
//! 2. never push config to more than 100 instances without rolling validation;
//! 3. never delete at a provider without a prior audit log entry;
//! 4. actions affecting more than 10 users need explicit confirmation.
//! Each guard returns `Ok` when the operation may proceed and a message
//! citing the rule when it is blocked.

use vstd::prelude::*;
use crate::proto::{InstanceRole, InstanceState};
use crate::text::{decimal, owned, push_decimal, push_str};

verus! {

/// Name of a state as `{:?}` prints it.
pub open spec fn state_name(s: InstanceState) -> Seq<char> {
    match s {
        InstanceState::Unknown => "Unknown"@,
        InstanceState::Bootstrapping => "Bootstrapping"@,
        InstanceState::Active => "Active"@,
        InstanceState::Degraded => "Degraded"@,
        InstanceState::Failed => "Failed"@,
        InstanceState::Maintenance => "Maintenance"@,
    }
}

fn state_str(s: InstanceState) -> (r: &'static str)
    ensures
        r@ == state_name(s),
{
    match s {
        InstanceState::Unknown => "Unknown",
        InstanceState::Bootstrapping => "Bootstrapping",
        InstanceState::Active => "Active",
        InstanceState::Degraded => "Degraded",
        InstanceState::Failed => "Failed",
        InstanceState::Maintenance => "Maintenance",
    }
}

/// Why tearing down an instance is blocked, if it is.
pub open spec fn teardown_block(role: InstanceRole, state: InstanceState, standby: Option<InstanceState>) -> Option<Seq<char>> {
    if role == InstanceRole::Primary && state == InstanceState::Active {
        match standby {
            Some(InstanceState::Active) => None,
            Some(other) => Some("SAFETY: cannot teardown active primary — standby is "@ + state_name(other) + ", not Active"@),
            None => Some("SAFETY: cannot teardown active primary — no standby instance found"@),
        }
    } else {
        None
    }
}

/// The error message of a blocked guard, or `None` when it passed.
pub open spec fn blocked_by<T>(r: Result<T, String>) -> Option<Seq<char>> {
    match r {
        Ok(_) => None,
        Err(m) => Some(m@),
    }
}

/// Teardown of an ACTIVE PRIMARY requires its STANDBY to be ACTIVE; other
/// instances may always be torn down.
pub fn guard_teardown_primary(instance_role: InstanceRole, instance_state: InstanceState, standby_state: Option<InstanceState>)
    -> (r: Result<(), String>)
    ensures
        blocked_by(r) == teardown_block(instance_role, instance_state, standby_state),
{
    if instance_role == InstanceRole::Primary && instance_state == InstanceState::Active {
        match standby_state {
            Some(InstanceState::Active) => Ok(()),
            Some(other) => {
                let mut m = owned("SAFETY: cannot teardown active primary — standby is ");
                push_str(&mut m, state_str(other));
                push_str(&mut m, ", not Active");
                Err(m)
            },
            None => Err(owned("SAFETY: cannot teardown active primary — no standby instance found")),
        }
    } else {
        Ok(())
    }
}

/// An ACTIVE PRIMARY can only be torn down while its STANDBY is ACTIVE, so
/// the user keeps an ACTIVE gateway.
pub proof fn lemma_teardown_keeps_a_gateway(state: InstanceState, standby: Option<InstanceState>)
    requires
        teardown_block(InstanceRole::Primary, state, standby) is None,
        state == InstanceState::Active,
    ensures
        standby == Some(InstanceState::Active),
{
}

/// Config push to more than 100 instances requires the rolling flag; the
/// instance count is returned when allowed.
pub fn guard_config_push_batch(instance_count: usize, rolling: bool) -> (r: Result<usize, String>)
    ensures
        instance_count > 100 && !rolling ==> blocked_by(r) == Some(
            "SAFETY: config push to "@ + decimal(instance_count as nat) + " instances requires rolling=true"@),
        !(instance_count > 100 && !rolling) ==> r == Ok::<usize, String>(instance_count),
{
    if instance_count > 100 && !rolling {
        let mut m = owned("SAFETY: config push to ");
        push_decimal(&mut m, instance_count as u64);
        push_str(&mut m, " instances requires rolling=true");
        return Err(m);
    }
    Ok(instance_count)
}

/// Provider deletes require a prior audit log entry for the resource.
pub fn guard_delete_requires_audit(audit_log_has_entry: bool, resource_id: &str) -> (r: Result<(), String>)
    ensures
        !audit_log_has_entry ==> blocked_by(r) == Some(
            "SAFETY: provider delete of '"@ + resource_id@ + "' requires audit log entry first"@),
        audit_log_has_entry ==> r is Ok,
{
    if !audit_log_has_entry {
        let mut m = owned("SAFETY: provider delete of '");
        push_str(&mut m, resource_id);
        push_str(&mut m, "' requires audit log entry first");
        return Err(m);
    }
    Ok(())
}

/// Operations affecting more than 10 users require explicit confirmation;
/// the user count is returned when allowed.
pub fn guard_user_count(user_count: usize, confirmed: bool) -> (r: Result<usize, String>)
    ensures
        user_count > 10 && !confirmed ==> blocked_by(r) == Some(
            "SAFETY: operation affects "@ + decimal(user_count as nat) + " users (> 10) — requires explicit confirmation"@),
        !(user_count > 10 && !confirmed) ==> r == Ok::<usize, String>(user_count),
{
    if user_count > 10 && !confirmed {
        let mut m = owned("SAFETY: operation affects ");
        push_decimal(&mut m, user_count as u64);
        push_str(&mut m, " users (> 10) — requires explicit confirmation");
        return Err(m);
    }
    Ok(user_count)
}

} // verus!
