//! Configuration of the GatewayForge node agent, the pair role it runs
//! in, and the admission of commands: each must start with an allowed
//! prefix and carry a valid HMAC-SHA256 signature.

use vstd::prelude::*;
use vstd::string::*;
use vstd::utf8::encode_utf8;
use crate::gf_proto::{AgentIdentity, HeartbeatPayload, ServiceStatus};
use crate::sources::random_uuid;
use crate::text::{has_prefix, owned, push_str, starts_with, string_views};
use crate::words::{parse_u64, parse_u64_str};

verus! {

/// Whether this instance is the PRIMARY or STANDBY of its pair.
#[derive(Debug, Clone, Copy, PartialEq, Eq, Structural)]
pub enum InstanceRole {
    Primary,
    Standby,
}

/// Lower-case display name of a role.
pub open spec fn role_label(r: InstanceRole) -> Seq<char> {
    match r {
        InstanceRole::Primary => "primary"@,
        InstanceRole::Standby => "standby"@,
    }
}

impl InstanceRole {
    /// The role's display name (`primary` or `standby`).
    pub fn to_string(&self) -> (r: String)
        ensures
            r@ == role_label(*self),
    {
        match self {
            InstanceRole::Primary => owned("primary"),
            InstanceRole::Standby => owned("standby"),
        }
    }

    /// The role named by a `NODE_ROLE` setting: `standby` gives STANDBY,
    /// anything else PRIMARY.
    pub fn from_setting(s: &str) -> (r: InstanceRole)
        ensures
            r == (if s@ == "standby"@ { InstanceRole::Standby } else { InstanceRole::Primary }),
    {
        if crate::text::str_equal(s, "standby") { InstanceRole::Standby } else { InstanceRole::Primary }
    }
}

/// Configuration of the node agent.
#[derive(Debug, Clone)]
pub struct NodeConfig {
    /// Unique instance UUID assigned at provision time.
    pub instance_id: String,
    /// Gateway WebSocket URL.
    pub gateway_url: String,
    /// API key for authenticating commands from the gateway.
    pub api_key: String,
    /// Control plane REST API base URL.
    pub gf_api_base: String,
    /// VPS provider.
    pub provider: String,
    /// Instance region code.
    pub region: String,
    /// Service tier.
    pub tier: String,
    /// User account ID this instance belongs to.
    pub account_id: Option<String>,
    /// PRIMARY or STANDBY.
    pub role: InstanceRole,
    /// The other member of the pair.
    pub pair_instance_id: Option<String>,
    /// Heartbeat interval in seconds.
    pub heartbeat_interval_secs: u64,
    /// Metrics collection interval in seconds.
    pub metrics_interval_secs: u64,
    /// Allowed command prefixes.
    pub allowed_command_prefixes: Vec<String>,
}

// ─── Settings ────────────────────────────────────────────────────────────────

/// The settings a node is configured from, as read from its environment;
/// `None` where a setting is absent.
#[derive(Debug, Clone, Default)]
pub struct NodeSettings {
    pub instance_id: Option<String>,
    pub gateway_url: Option<String>,
    pub api_key: Option<String>,
    pub gf_api_base: Option<String>,
    pub provider: Option<String>,
    pub region: Option<String>,
    pub tier: Option<String>,
    pub account_id: Option<String>,
    pub role: Option<String>,
    pub pair_instance_id: Option<String>,
    pub heartbeat_interval_secs: Option<String>,
    pub metrics_interval_secs: Option<String>,
}

/// The text of a setting, or the default.
pub open spec fn setting_or(s: Option<String>, default: Seq<char>) -> Seq<char> {
    match s {
        Some(v) => v@,
        None => default,
    }
}

/// A numeric setting: its `u64` value when it parses, else the default.
pub open spec fn number_or(s: Option<String>, default: u64) -> u64 {
    match s {
        Some(v) => match parse_u64(v@) {
            Some(n) => n,
            None => default,
        },
        None => default,
    }
}

/// The command prefixes a node accepts.
pub open spec fn default_prefixes() -> Seq<Seq<char>> {
    seq!["vps."@, "openclaw."@, "config."@, "docker."@, "ssh."@, "firewall."@, "tailscale."@]
}

fn text_or(s: Option<String>, default: &str) -> (r: String)
    ensures
        r@ == setting_or(s, default@),
{
    match s {
        Some(v) => v,
        None => owned(default),
    }
}

fn number_setting(s: &Option<String>, default: u64) -> (r: u64)
    ensures
        r == number_or(*s, default),
{
    match s {
        Some(v) => match parse_u64_str(v.as_str()) {
            Some(n) => n,
            None => default,
        },
        None => default,
    }
}

impl NodeConfig {
    /// The configuration from `settings`: each absent setting takes its
    /// default (a fresh random instance id, gateway `ws://localhost:8443`,
    /// no API key, API base `https://api.gatewayforge.io`, provider
    /// `hetzner`, region `eu-hetzner-nbg1`, tier `standard`, role primary
    /// unless `standby`, heartbeat every 30 s and metrics every 60 s, also
    /// when the numbers do not parse); commands are accepted under the
    /// `vps.`, `openclaw.`, `config.`, `docker.`, `ssh.`, `firewall.` and
    /// `tailscale.` prefixes.
    pub fn from_settings(settings: NodeSettings) -> (c: NodeConfig)
        ensures
            settings.instance_id matches Some(v) ==> c.instance_id == v,
            c.gateway_url@ == setting_or(settings.gateway_url, "ws://localhost:8443"@),
            c.api_key@ == setting_or(settings.api_key, Seq::empty()),
            c.gf_api_base@ == setting_or(settings.gf_api_base, "https://api.gatewayforge.io"@),
            c.provider@ == setting_or(settings.provider, "hetzner"@),
            c.region@ == setting_or(settings.region, "eu-hetzner-nbg1"@),
            c.tier@ == setting_or(settings.tier, "standard"@),
            c.account_id == settings.account_id,
            c.role == (match settings.role {
                Some(r) => if r@ == "standby"@ { InstanceRole::Standby } else { InstanceRole::Primary },
                None => InstanceRole::Primary,
            }),
            c.pair_instance_id == settings.pair_instance_id,
            c.heartbeat_interval_secs == number_or(settings.heartbeat_interval_secs, 30),
            c.metrics_interval_secs == number_or(settings.metrics_interval_secs, 60),
            string_views(c.allowed_command_prefixes@) == default_prefixes(),
    {
        let heartbeat_interval_secs = number_setting(&settings.heartbeat_interval_secs, 30);
        let metrics_interval_secs = number_setting(&settings.metrics_interval_secs, 60);
        let role = match &settings.role {
            Some(r) => InstanceRole::from_setting(r.as_str()),
            None => InstanceRole::Primary,
        };
        let instance_id = match settings.instance_id {
            Some(v) => v,
            None => random_uuid(),
        };
        let api_key = match settings.api_key {
            Some(v) => v,
            None => String::new(),
        };
        let mut prefixes: Vec<String> = Vec::new();
        prefixes.push(owned("vps."));
        prefixes.push(owned("openclaw."));
        prefixes.push(owned("config."));
        prefixes.push(owned("docker."));
        prefixes.push(owned("ssh."));
        prefixes.push(owned("firewall."));
        prefixes.push(owned("tailscale."));
        assert(string_views(prefixes@) =~= default_prefixes());
        NodeConfig {
            instance_id,
            gateway_url: text_or(settings.gateway_url, "ws://localhost:8443"),
            api_key,
            gf_api_base: text_or(settings.gf_api_base, "https://api.gatewayforge.io"),
            provider: text_or(settings.provider, "hetzner"),
            region: text_or(settings.region, "eu-hetzner-nbg1"),
            tier: text_or(settings.tier, "standard"),
            account_id: settings.account_id,
            role,
            pair_instance_id: settings.pair_instance_id,
            heartbeat_interval_secs,
            metrics_interval_secs,
            allowed_command_prefixes: prefixes,
        }
    }
}

// ─── Command admission ────────────────────────────────────────────────────────

/// A command sent to the node. The arguments are JSON text.
#[derive(Debug, Clone)]
pub struct CommandRequest {
    pub request_id: String,
    pub command: String,
    pub args_json: String,
    /// Hex HMAC-SHA256 of `request_id:command:args`.
    pub signature: String,
    pub issued_by: AgentIdentity,
}

/// The outcome of a command, sent back to the gateway. The output is JSON
/// text.
#[derive(Debug, Clone)]
pub struct CommandResult {
    pub request_id: String,
    pub command: String,
    pub success: bool,
    pub output_json: String,
    pub error: Option<String>,
    pub duration_ms: u64,
}

/// Value of a hex digit, either case.
pub open spec fn hex_value(c: char) -> Option<int> {
    if '0' <= c <= '9' {
        Some(c as int - 48)
    } else if 'a' <= c <= 'f' {
        Some(c as int - 87)
    } else if 'A' <= c <= 'F' {
        Some(c as int - 55)
    } else {
        None
    }
}

/// The bytes of a hex text: two digits per byte, either case; `None` for
/// an odd length or a character that is no hex digit.
pub open spec fn hex_bytes(s: Seq<char>) -> Option<Seq<u8>> {
    if exists|i: int| 0 <= i < s.len() && #[trigger] hex_value(s[i]) is None {
        None
    } else if s.len() % 2 == 1 {
        None
    } else {
        Some(Seq::new(s.len() / 2, |i: int| (hex_value(s[2 * i])->0 * 16 + hex_value(s[2 * i + 1])->0) as u8))
    }
}

/// `hex::decode`, `None` for its error: two hex digits of either case per
/// byte.
#[verifier::external_body]
fn hex_decode(s: &str) -> (r: Option<Vec<u8>>)
    ensures
        match r {
            Some(v) => hex_bytes(s@) == Some(v@),
            None => hex_bytes(s@) is None,
        },
{
    hex::decode(s).ok()
}

/// HMAC-SHA256 tag of a message under a key.
pub uninterp spec fn hmac_sha256(key: Seq<u8>, msg: Seq<u8>) -> Seq<u8>;

/// `Hmac::<Sha256>::new_from_slice(key)`, updated with `msg`, then
/// `verify_slice(tag)`: whether `tag` is the HMAC-SHA256 of the message,
/// named `hmac_sha256` of key and message. Any key length is accepted.
#[verifier::external_body]
fn hmac_sha256_matches(key: &[u8], msg: &[u8], tag: &[u8]) -> (r: bool)
    ensures
        r == (tag@ == hmac_sha256(key@, msg@)),
{
    match <hmac::Hmac<sha2::Sha256> as hmac::Mac>::new_from_slice(key) {
        Ok(mut mac) => {
            hmac::Mac::update(&mut mac, msg);
            hmac::Mac::verify_slice(mac, tag).is_ok()
        },
        Err(_) => false,
    }
}

/// The text a command's signature covers: `request_id:command:args`.
pub open spec fn signed_text(req: CommandRequest) -> Seq<char> {
    req.request_id@ + ":"@ + req.command@ + ":"@ + req.args_json@
}

/// Whether `req` carries a valid signature under `api_key`: always with no
/// key configured (development mode), otherwise when the hex signature is
/// the HMAC-SHA256 of the signed text under the key.
pub open spec fn signature_valid(api_key: Seq<char>, req: CommandRequest) -> bool {
    api_key.len() == 0 || match hex_bytes(req.signature@) {
        Some(sig) => sig == hmac_sha256(encode_utf8(api_key), encode_utf8(signed_text(req))),
        None => false,
    }
}

/// Whether some prefix of `prefixes` starts `command`.
pub open spec fn command_permitted(prefixes: Seq<Seq<char>>, command: Seq<char>) -> bool {
    exists|i: int| 0 <= i < prefixes.len() && has_prefix(command, #[trigger] prefixes[i])
}

/// Why a command is refused, if it is: not under an allowed prefix, or not
/// validly signed.
pub open spec fn refusal(c: NodeConfig, req: CommandRequest) -> Option<Seq<char>> {
    if !command_permitted(string_views(c.allowed_command_prefixes@), req.command@) {
        Some("Command not in allowlist"@)
    } else if !signature_valid(c.api_key@, req) {
        Some("Invalid HMAC signature"@)
    } else {
        None
    }
}

impl NodeConfig {
    /// Whether `command` starts with one of the allowed prefixes.
    pub fn command_allowed(&self, command: &str) -> (r: bool)
        ensures
            r == command_permitted(string_views(self.allowed_command_prefixes@), command@),
    {
        let ghost ps = string_views(self.allowed_command_prefixes@);
        let mut i: usize = 0;
        while i < self.allowed_command_prefixes.len()
            invariant
                ps == string_views(self.allowed_command_prefixes@),
                i <= ps.len(),
                forall|j: int| 0 <= j < i ==> !has_prefix(command@, #[trigger] ps[j]),
            decreases ps.len() - i,
        {
            if starts_with(command, self.allowed_command_prefixes[i].as_str()) {
                assert(has_prefix(command@, ps[i as int]));
                return true;
            }
            i = i + 1;
        }
        false
    }

    /// Whether `req` is validly signed under this node's API key.
    pub fn verify_signature(&self, req: &CommandRequest) -> (r: bool)
        ensures
            r == signature_valid(self.api_key@, *req),
    {
        if self.api_key.as_str().unicode_len() == 0 {
            return true;
        }
        let mut message = req.request_id.clone();
        push_str(&mut message, ":");
        push_str(&mut message, req.command.as_str());
        push_str(&mut message, ":");
        push_str(&mut message, req.args_json.as_str());
        match hex_decode(req.signature.as_str()) {
            Some(sig) => hmac_sha256_matches(self.api_key.as_str().as_bytes(), message.as_str().as_bytes(),
                sig.as_slice()),
            None => false,
        }
    }

    /// Admits a command: refused with `Command not in allowlist` when no
    /// allowed prefix starts it, then with `Invalid HMAC signature` when its
    /// signature is not valid.
    pub fn admit_command(&self, req: &CommandRequest) -> (r: Result<(), String>)
        ensures
            match r {
                Ok(()) => refusal(*self, *req) is None,
                Err(m) => refusal(*self, *req) == Some(m@),
            },
    {
        if !self.command_allowed(req.command.as_str()) {
            return Err(owned("Command not in allowlist"));
        }
        if !self.verify_signature(req) {
            return Err(owned("Invalid HMAC signature"));
        }
        Ok(())
    }
}

/// The result sent back for a command: its handler's output, or, with no
/// handler for it, null output and `Unknown command: <command>`.
pub fn command_result(request_id: String, command: String, handler_output: Option<String>, duration_ms: u64)
    -> (r: CommandResult)
    ensures
        r.request_id == request_id,
        r.command == command,
        r.duration_ms == duration_ms,
        match handler_output {
            Some(o) => r.output_json == o && r.error is None && r.success,
            None => r.output_json@ == "null"@ && !r.success
                && (r.error matches Some(e) && e@ == "Unknown command: "@ + command@),
        },
{
    match handler_output {
        Some(o) => CommandResult { request_id, command, success: true, output_json: o, error: None, duration_ms },
        None => {
            let mut e = owned("Unknown command: ");
            push_str(&mut e, command.as_str());
            CommandResult { request_id, command, success: false, output_json: owned("null"), error: Some(e), duration_ms }
        },
    }
}

/// The result sent back for a refused command.
pub fn refused_result(req: CommandRequest, reason: String) -> (r: CommandResult)
    ensures
        r.request_id == req.request_id,
        r.command == req.command,
        !r.success,
        r.output_json@ == "null"@,
        r.error == Some(reason),
        r.duration_ms == 0,
{
    CommandResult {
        request_id: req.request_id,
        command: req.command,
        success: false,
        output_json: owned("null"),
        error: Some(reason),
        duration_ms: 0,
    }
}

/// A command under an allowed prefix whose signature is the hex of the
/// HMAC of its text under the node's key is admitted.
pub proof fn lemma_signed_allowed_command_admitted(c: NodeConfig, req: CommandRequest, tag: Seq<u8>)
    requires
        command_permitted(string_views(c.allowed_command_prefixes@), req.command@),
        tag == hmac_sha256(encode_utf8(c.api_key@), encode_utf8(signed_text(req))),
        hex_bytes(req.signature@) == Some(tag),
    ensures
        refusal(c, req) is None,
{
}

// ─── Connection upkeep ───────────────────────────────────────────────────────

/// The first wait before reconnecting, in seconds.
pub const INITIAL_BACKOFF_SECS: u64 = 2;

/// The longest wait before reconnecting, in seconds.
pub const MAX_BACKOFF_SECS: u64 = 60;

/// The wait before the next reconnection: back to the initial wait after a
/// clean close, else doubled, at most the maximum.
pub open spec fn backoff_after(current: u64, clean: bool) -> u64 {
    if clean {
        2
    } else if current * 2 < 60 {
        (current * 2) as u64
    } else {
        60
    }
}

/// The wait before the next reconnection after a connection ended.
pub fn next_backoff(current: u64, clean: bool) -> (b: u64)
    ensures
        b == backoff_after(current, clean),
{
    if clean {
        INITIAL_BACKOFF_SECS
    } else if current < MAX_BACKOFF_SECS / 2 {
        current * 2
    } else {
        MAX_BACKOFF_SECS
    }
}

/// The reconnection wait stays between the initial and the maximum wait,
/// and never shrinks while errors continue.
pub proof fn lemma_backoff_bounded(current: u64, clean: bool)
    requires
        2 <= current <= 60,
    ensures
        2 <= backoff_after(current, clean) <= 60,
        !clean ==> backoff_after(current, clean) >= current,
{
}

/// The status of the local OpenClaw from its HTTP health check: the
/// response status when one came, `None` when the request failed.
pub open spec fn openclaw_status_of(response: Option<u16>) -> ServiceStatus {
    match response {
        Some(code) => if 200 <= code <= 299 { ServiceStatus::Healthy } else { ServiceStatus::Degraded },
        None => ServiceStatus::Down,
    }
}

/// Healthy on a 2xx answer, degraded on another answer, down without one.
pub fn openclaw_status(response: Option<u16>) -> (s: ServiceStatus)
    ensures
        s == openclaw_status_of(response),
{
    match response {
        Some(code) => if 200 <= code && code <= 299 { ServiceStatus::Healthy } else { ServiceStatus::Degraded },
        None => ServiceStatus::Down,
    }
}

/// The heartbeat of the node from its checks; the score sent is a fixed 90.
pub fn build_heartbeat(openclaw_response: Option<u16>, docker_running: bool, tailscale_connected: bool,
    uptime_seconds: u64) -> (h: HeartbeatPayload)
    ensures
        h.health_score == 90,
        h.openclaw_status == openclaw_status_of(openclaw_response),
        h.docker_running == docker_running,
        h.tailscale_connected == tailscale_connected,
        h.uptime_seconds == uptime_seconds,
{
    HeartbeatPayload {
        health_score: 90,
        openclaw_status: openclaw_status(openclaw_response),
        docker_running,
        tailscale_connected,
        uptime_seconds,
    }
}

} // verus!
