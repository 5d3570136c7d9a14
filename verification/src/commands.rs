//! Routing of the commands a node is invoked with to the handler group
//! that serves them, and the program line of `system.run`.

use vstd::prelude::*;
use vstd::string::*;
use crate::text::{owned, push_str, str_equal, string_views};
use crate::secrets_cmd::{resolved, ParamValue};
use crate::words::{split_words, words};

verus! {

/// The handler a command goes to.
#[derive(Debug, Clone, Copy, PartialEq, Eq, Structural)]
pub enum CommandRoute {
    VpsInfo,
    VpsStatus,
    VpsMetrics,
    VpsRestart,
    SystemRun,
    OpenclawHealth,
    DockerStatus,
    DockerRestart,
    HealthCheck,
    HealthScore,
    NodeCapabilities,
    Config,
    Secret,
    Auth,
}

/// The route of a command name, if it has one.
pub open spec fn route_of(c: Seq<char>) -> Option<CommandRoute> {
    if c == "system.info"@ || c == "vps.info"@ {
        Some(CommandRoute::VpsInfo)
    } else if c == "vps.status"@ {
        Some(CommandRoute::VpsStatus)
    } else if c == "vps.metrics"@ {
        Some(CommandRoute::VpsMetrics)
    } else if c == "vps.restart"@ {
        Some(CommandRoute::VpsRestart)
    } else if c == "system.run"@ {
        Some(CommandRoute::SystemRun)
    } else if c == "openclaw.health"@ {
        Some(CommandRoute::OpenclawHealth)
    } else if c == "docker.status"@ {
        Some(CommandRoute::DockerStatus)
    } else if c == "docker.restart"@ {
        Some(CommandRoute::DockerRestart)
    } else if c == "health.check"@ || c == "node.health"@ {
        Some(CommandRoute::HealthCheck)
    } else if c == "health.score"@ {
        Some(CommandRoute::HealthScore)
    } else if c == "node.capabilities"@ {
        Some(CommandRoute::NodeCapabilities)
    } else if c == "config.create"@ || c == "config.set"@ || c == "config.get"@ || c == "config.update"@
        || c == "config.delete"@ || c == "config.list"@ {
        Some(CommandRoute::Config)
    } else if c == "secret.create"@ || c == "secret.get"@ || c == "secret.delete"@ || c == "secret.list"@
        || c == "secret.rotate"@ {
        Some(CommandRoute::Secret)
    } else if c == "auth.create_key"@ || c == "auth.revoke_key"@ || c == "auth.list_keys"@
        || c == "audit.query"@ {
        Some(CommandRoute::Auth)
    } else {
        None
    }
}

/// The handler group for `command`, or the error `unknown command: <name>`.
pub fn route_command(command: &str) -> (r: Result<CommandRoute, String>)
    ensures
        match route_of(command@) {
            Some(route) => r == Ok::<CommandRoute, String>(route),
            None => r matches Err(m) && m@ == "unknown command: "@ + command@,
        },
{
    let c = command;
    if str_equal(c, "system.info") || str_equal(c, "vps.info") {
        Ok(CommandRoute::VpsInfo)
    } else if str_equal(c, "vps.status") {
        Ok(CommandRoute::VpsStatus)
    } else if str_equal(c, "vps.metrics") {
        Ok(CommandRoute::VpsMetrics)
    } else if str_equal(c, "vps.restart") {
        Ok(CommandRoute::VpsRestart)
    } else if str_equal(c, "system.run") {
        Ok(CommandRoute::SystemRun)
    } else if str_equal(c, "openclaw.health") {
        Ok(CommandRoute::OpenclawHealth)
    } else if str_equal(c, "docker.status") {
        Ok(CommandRoute::DockerStatus)
    } else if str_equal(c, "docker.restart") {
        Ok(CommandRoute::DockerRestart)
    } else if str_equal(c, "health.check") || str_equal(c, "node.health") {
        Ok(CommandRoute::HealthCheck)
    } else if str_equal(c, "health.score") {
        Ok(CommandRoute::HealthScore)
    } else if str_equal(c, "node.capabilities") {
        Ok(CommandRoute::NodeCapabilities)
    } else if str_equal(c, "config.create") || str_equal(c, "config.set") || str_equal(c, "config.get")
        || str_equal(c, "config.update") || str_equal(c, "config.delete") || str_equal(c, "config.list") {
        Ok(CommandRoute::Config)
    } else if str_equal(c, "secret.create") || str_equal(c, "secret.get") || str_equal(c, "secret.delete")
        || str_equal(c, "secret.list") || str_equal(c, "secret.rotate") {
        Ok(CommandRoute::Secret)
    } else if str_equal(c, "auth.create_key") || str_equal(c, "auth.revoke_key")
        || str_equal(c, "auth.list_keys") || str_equal(c, "audit.query") {
        Ok(CommandRoute::Auth)
    } else {
        let mut m = owned("unknown command: ");
        push_str(&mut m, command);
        Err(m)
    }
}

/// The program and arguments `system.run` starts: the words of its
/// `command` parameter (else `cmd`); an error when it has none or is blank.
pub fn system_run_args(command: &ParamValue, cmd: &ParamValue) -> (r: Result<Vec<String>, String>)
    ensures
        match resolved(*command, *cmd) {
            None => r matches Err(m) && m@ == "missing 'command' param"@,
            Some(c) => if words(c).len() == 0 {
                r matches Err(m) && m@ == "empty command"@
            } else {
                r matches Ok(v) && string_views(v@) == words(c)
            },
        },
{
    let p = match command {
        ParamValue::Absent => cmd,
        _ => command,
    };
    let line = match p {
        ParamValue::Text(s) => s.as_str(),
        _ => return Err(owned("missing 'command' param")),
    };
    let args = split_words(line);
    if args.len() == 0 {
        return Err(owned("empty command"));
    }
    Ok(args)
}

} // verus!
