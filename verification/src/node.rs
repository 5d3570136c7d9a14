//! The VPS node agent's configuration, runtime state and the messages of
//! its gateway handshake.

use vstd::prelude::*;
use std::collections::HashMap;
use std::path::PathBuf;
use crate::text::{decimal, owned, push_decimal, push_str, string_views, str_views};

verus! {

/// Calls `PathBuf::from` on a literal path; nothing is stated of it.
#[verifier::external_body]
fn path_buf(p: &str) -> PathBuf {
    PathBuf::from(p)
}

/// Configuration for the VPS node agent.
#[derive(Debug)]
pub struct NodeConfig {
    /// Gateway WebSocket URL.
    pub gateway: String,
    /// Auth token for the gateway.
    pub token: Option<String>,
    /// Hostname / display name for this node.
    pub hostname: String,
    /// Provider (hetzner, vultr, contabo, hostinger, digitalocean).
    pub provider: String,
    /// Region (e.g. eu-hetzner-nbg1).
    pub region: String,
    /// Instance tier (nano, standard, pro, enterprise).
    pub tier: String,
    /// Instance role (primary, standby).
    pub role: String,
    /// Account ID.
    pub account_id: String,
    /// Path to persistent state directory.
    pub state_path: PathBuf,
    /// Heartbeat interval in seconds.
    pub heartbeat_interval_secs: u64,
    /// Reconnect delay in seconds.
    pub reconnect_delay_secs: u64,
    /// Arbitrary key-value labels.
    pub labels: HashMap<String, String>,
}

/// Heartbeat interval used when a configuration does not give one: 30 s.
pub fn default_heartbeat() -> (s: u64)
    ensures
        s == 30,
{
    30
}

/// Reconnect delay used when a configuration does not give one: 5 s.
pub fn default_reconnect() -> (s: u64)
    ensures
        s == 5,
{
    5
}

impl Default for NodeConfig {
    /// Local gateway, no token, Hetzner Nuremberg, standard primary, state
    /// under `/var/lib/clawnode`, 30 s heartbeat, 5 s reconnect, no labels.
    fn default() -> (c: Self)
        ensures
            c.gateway@ == "wss://localhost:18789"@,
            c.token is None,
            c.hostname@ == "clawnode"@,
            c.provider@ == "hetzner"@,
            c.region@ == "eu-hetzner-nbg1"@,
            c.tier@ == "standard"@,
            c.role@ == "primary"@,
            c.account_id@ == Seq::<char>::empty(),
            c.heartbeat_interval_secs == 30,
            c.reconnect_delay_secs == 5,
            c.labels@ == Map::<String, String>::empty(),
    {
        NodeConfig {
            gateway: owned("wss://localhost:18789"),
            token: None,
            hostname: owned("clawnode"),
            provider: owned("hetzner"),
            region: owned("eu-hetzner-nbg1"),
            tier: owned("standard"),
            role: owned("primary"),
            account_id: String::new(),
            state_path: path_buf("/var/lib/clawnode"),
            heartbeat_interval_secs: 30,
            reconnect_delay_secs: 5,
            labels: HashMap::new(),
        }
    }
}

/// Mutable per-node runtime state.
#[derive(Debug)]
pub struct NodeState {
    pub config: NodeConfig,
    pub connected: bool,
    pub node_id: Option<String>,
    pub node_token: Option<String>,
    pub approved: bool,
    pub capabilities: Vec<String>,
    pub commands: Vec<String>,
}

/// The capabilities a VPS node advertises.
pub open spec fn node_capabilities() -> Seq<Seq<char>> {
    seq![
        "system"@,
        "vps"@,
        "docker"@,
        "tailscale"@,
        "openclaw"@,
        "health"@,
    ]
}

/// The commands a VPS node accepts.
pub open spec fn node_commands() -> Seq<Seq<char>> {
    seq![
        "vps.info"@,
        "vps.status"@,
        "vps.metrics"@,
        "vps.restart"@,
        "system.info"@,
        "system.run"@,
        "openclaw.health"@,
        "docker.status"@,
        "docker.restart"@,
        "health.check"@,
        "health.score"@,
        "node.health"@,
        "node.capabilities"@,
        "config.create"@,
        "config.get"@,
        "config.set"@,
        "config.update"@,
        "config.delete"@,
        "config.list"@,
        "secret.create"@,
        "secret.get"@,
        "secret.delete"@,
        "secret.list"@,
        "secret.rotate"@,
        "auth.create_key"@,
        "auth.revoke_key"@,
        "auth.list_keys"@,
        "audit.query"@,
    ]
}

fn strings(items: &[&str]) -> (v: Vec<String>)
    ensures
        string_views(v@) == str_views(items@),
{
    let mut v: Vec<String> = Vec::new();
    let mut i: usize = 0;
    while i < items.len()
        invariant
            i <= items@.len(),
            v@.len() == i,
            string_views(v@) == str_views(items@.take(i as int)),
        decreases items@.len() - i,
    {
        let ghost before = v@;
        let item = owned(items[i]);
        v.push(item);
        assert(v@ == before.push(item));
        assert(items@.take(i + 1) =~= items@.take(i as int).push(items@[i as int]));
        assert forall|k: int| 0 <= k < v@.len() implies #[trigger] string_views(v@)[k]
            == str_views(items@.take(i + 1))[k] by {
            if k < i {
                assert(string_views(before)[k] == str_views(items@.take(i as int))[k]);
                assert(v@[k] == before[k]);
            } else {
                assert(v@[k] == item);
            }
        }
        assert(string_views(v@) =~= str_views(items@.take(i + 1)));
        i = i + 1;
    }
    assert(items@.take(items@.len() as int) =~= items@);
    v
}

impl NodeState {
    /// Fresh state for `config`: not connected, no node id or token, not
    /// approved, with the VPS capabilities and commands.
    pub fn new(config: NodeConfig) -> (s: Self)
        ensures
            s.config == config,
            !s.connected,
            s.node_id is None,
            s.node_token is None,
            !s.approved,
            string_views(s.capabilities@) == node_capabilities(),
            string_views(s.commands@) == node_commands(),
    {
        let caps: [&str; 6] = [
            "system", "vps", "docker", "tailscale", "openclaw", "health",
        ];
        let cmds: [&str; 28] = [
            "vps.info",
            "vps.status",
            "vps.metrics",
            "vps.restart",
            "system.info",
            "system.run",
            "openclaw.health",
            "docker.status",
            "docker.restart",
            "health.check",
            "health.score",
            "node.health",
            "node.capabilities",
            "config.create",
            "config.get",
            "config.set",
            "config.update",
            "config.delete",
            "config.list",
            "secret.create",
            "secret.get",
            "secret.delete",
            "secret.list",
            "secret.rotate",
            "auth.create_key",
            "auth.revoke_key",
            "auth.list_keys",
            "audit.query",
        ];
        let capabilities = strings(&caps);
        let commands = strings(&cmds);
        assert(str_views(caps@) =~= node_capabilities());
        assert(str_views(cmds@) =~= node_commands());
        NodeState {
            config,
            connected: false,
            node_id: None,
            node_token: None,
            approved: false,
            capabilities,
            commands,
        }
    }
}

// ─── Gateway handshake messages ──────────────────────────────────────────────

/// Device parameters for the WebSocket connect handshake.
#[derive(Debug, Clone)]
pub struct DeviceParams {
    /// Device ID (SHA-256 of public key).
    pub id: String,
    /// Base64url-encoded public key.
    pub public_key: String,
    /// Base64url-encoded signature.
    pub signature: String,
    /// Signing timestamp (ms since epoch).
    pub signed_at: u64,
    /// Optional nonce (v2 protocol).
    pub nonce: Option<String>,
}

/// Connect params sent on connection.
#[derive(Debug, Clone)]
pub struct ConnectParams {
    pub min_protocol: u32,
    pub max_protocol: u32,
    pub client: ClientInfo,
    pub caps: Vec<String>,
    pub commands: Vec<String>,
    pub auth: Option<AuthParams>,
    pub device: Option<DeviceParams>,
    pub role: Option<String>,
    pub scopes: Option<Vec<String>>,
}

#[derive(Debug, Clone)]
pub struct ClientInfo {
    pub id: String,
    pub display_name: String,
    pub version: String,
    pub platform: String,
    pub mode: String,
    pub instance_id: String,
}

#[derive(Debug, Clone)]
pub struct AuthParams {
    pub token: Option<String>,
}

/// Node pair request params.
#[derive(Debug, Clone)]
pub struct NodePairRequestParams {
    pub node_id: String,
    pub display_name: String,
    pub platform: String,
    pub version: String,
    pub caps: Vec<String>,
    pub commands: Vec<String>,
    pub silent: bool,
}

#[derive(Debug, Clone)]
pub struct InvokeError {
    pub code: String,
    pub message: String,
}

/// Incoming node invoke request event.
#[derive(Debug, Clone)]
pub struct NodeInvokeRequestEvent {
    pub id: String,
    pub node_id: String,
    pub command: String,
    pub params_json: Option<String>,
    pub timeout_ms: Option<u64>,
    pub idempotency_key: Option<String>,
}

} // verus!
