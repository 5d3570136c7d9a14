//! Node protocol types exchanged between the gateway and the per-VPS agent:
//! providers, tiers, roles, states, heartbeat and metrics records, and the
//! identifier validation rules.

use vstd::prelude::*;
use vstd::string::*;
use crate::text::owned;

verus! {

/// A VPS hosting provider.
#[derive(Debug, Clone, Copy, PartialEq, Eq, Structural, Hash)]
pub enum VpsProvider {
    Hetzner,
    Vultr,
    Contabo,
    Hostinger,
    DigitalOcean,
}

/// Lower-case display name of a provider.
pub open spec fn provider_label(p: VpsProvider) -> Seq<char> {
    match p {
        VpsProvider::Hetzner => "hetzner"@,
        VpsProvider::Vultr => "vultr"@,
        VpsProvider::Contabo => "contabo"@,
        VpsProvider::Hostinger => "hostinger"@,
        VpsProvider::DigitalOcean => "digitalocean"@,
    }
}

impl VpsProvider {
    /// The provider's display name (`hetzner`, `vultr`, ...).
    pub fn to_string(&self) -> (r: String)
        ensures
            r@ == provider_label(*self),
    {
        match self {
            VpsProvider::Hetzner => owned("hetzner"),
            VpsProvider::Vultr => owned("vultr"),
            VpsProvider::Contabo => owned("contabo"),
            VpsProvider::Hostinger => owned("hostinger"),
            VpsProvider::DigitalOcean => owned("digitalocean"),
        }
    }
}

/// Size class of an instance.
#[derive(Debug, Clone, Copy, PartialEq, Eq, Structural, Hash)]
pub enum InstanceTier {
    Nano,
    Standard,
    Pro,
    Enterprise,
}

/// Lower-case display name of a tier.
pub open spec fn tier_label(t: InstanceTier) -> Seq<char> {
    match t {
        InstanceTier::Nano => "nano"@,
        InstanceTier::Standard => "standard"@,
        InstanceTier::Pro => "pro"@,
        InstanceTier::Enterprise => "enterprise"@,
    }
}

impl InstanceTier {
    /// The tier's display name (`nano`, `standard`, `pro`, `enterprise`).
    pub fn to_string(&self) -> (r: String)
        ensures
            r@ == tier_label(*self),
    {
        match self {
            InstanceTier::Nano => owned("nano"),
            InstanceTier::Standard => owned("standard"),
            InstanceTier::Pro => owned("pro"),
            InstanceTier::Enterprise => owned("enterprise"),
        }
    }
}

/// Role of an instance within its primary/standby pair.
#[derive(Debug, Clone, Copy, PartialEq, Eq, Structural, Hash)]
pub enum InstanceRole {
    Primary,
    Standby,
}

/// Lower-case display name of a role.
pub open spec fn role_label(r: InstanceRole) -> Seq<char> {
    match r {
        InstanceRole::Primary => "primary"@,
        InstanceRole::Standby => "standby"@,
    }
}

impl InstanceRole {
    /// The role's display name (`primary` or `standby`).
    pub fn to_string(&self) -> (r: String)
        ensures
            r@ == role_label(*self),
    {
        match self {
            InstanceRole::Primary => owned("primary"),
            InstanceRole::Standby => owned("standby"),
        }
    }
}

/// Lifecycle state of an instance.
#[derive(Debug, Clone, Copy, PartialEq, Eq, Structural)]
pub enum InstanceState {
    Unknown,
    Bootstrapping,
    Active,
    Degraded,
    Failed,
    Maintenance,
}

impl Default for InstanceState {
    /// An instance whose state has not been observed is `Unknown`.
    fn default() -> (s: Self)
        ensures
            s == InstanceState::Unknown,
    {
        InstanceState::Unknown
    }
}

/// Status of a service running on an instance.
#[derive(Debug, Clone, Copy, PartialEq, Eq, Structural)]
pub enum ServiceStatus {
    Healthy,
    Degraded,
    Down,
    Unknown,
}

/// Memory figures reported by a node, in megabytes.
#[derive(Debug, Clone, Copy, PartialEq, Eq, Structural)]
pub struct MemoryMetrics {
    pub total_mb: u64,
    pub used_mb: u64,
    pub available_mb: u64,
    pub swap_total_mb: u64,
    pub swap_used_mb: u64,
}

/// Periodic liveness message from a node.
#[derive(Debug, Clone)]
pub struct HeartbeatPayload {
    pub instance_id: String,
    pub health_score: u8,
    pub openclaw_status: ServiceStatus,
    pub docker_running: bool,
    pub tailscale_connected: bool,
    pub uptime_secs: u64,
}

/// Kinds of event a node reports.
#[derive(Debug, Clone, Copy, PartialEq, Eq, Structural)]
pub enum NodeEventType {
    OpenClawDown,
    OpenClawRecovered,
    DockerDown,
    DockerRecovered,
    TailscaleDisconnected,
    TailscaleReconnected,
    DiskUsageHigh,
    CpuUsageHigh,
    MemUsageHigh,
    HealthScoreLow,
    HealthScoreRecovered,
}

/// Severity of a node event, ordered `Info < Warning < Critical`.
#[derive(Debug, Clone, Copy, PartialEq, Eq, Structural, PartialOrd, Ord)]
pub enum EventSeverity {
    Info,
    Warning,
    Critical,
}

/// Status of a single named health check.
#[derive(Debug, Clone, Copy, PartialEq, Eq, Structural)]
pub enum CheckStatus {
    Healthy,
    Degraded,
    Critical,
    Unknown,
}

/// One named health check with its outcome.
#[derive(Debug, Clone)]
pub struct HealthCheck {
    pub name: String,
    pub status: CheckStatus,
    pub message: String,
}

// ─── Pair health ─────────────────────────────────────────────────────────────

/// Health of a primary/standby pair: the lower of the two scores, or the
/// primary's score when there is no standby.
pub open spec fn pair_health(primary: u8, standby: Option<u8>) -> u8 {
    match standby {
        Some(s) => if s < primary { s } else { primary },
        None => primary,
    }
}

/// Health bookkeeping for a primary/standby pair.
pub struct InstancePairStatus {
    pub primary_instance_id: String,
    pub standby_instance_id: Option<String>,
    pub pair_health: u8,
}

impl InstancePairStatus {
    /// The pair's health is the minimum of its members' health scores.
    pub fn compute_pair_health(primary_score: u8, standby_score: Option<u8>) -> (h: u8)
        ensures
            h == pair_health(primary_score, standby_score),
    {
        match standby_score {
            Some(s) => if s < primary_score { s } else { primary_score },
            None => primary_score,
        }
    }
}

/// Fleet-wide counts at one moment; `generated_at` is in milliseconds since
/// the Unix epoch.
#[derive(Debug, Clone, Copy, PartialEq, Eq, Structural)]
pub struct FleetStatus {
    pub total_instances: u32,
    pub active_pairs: u32,
    pub degraded_instances: u32,
    pub failed_instances: u32,
    pub bootstrapping_instances: u32,
    pub generated_at: i64,
}

// ─── Identifier validation ───────────────────────────────────────────────────

/// Unicode alphanumeric predicate of `char::is_alphanumeric` (Unicode
/// Alphabetic or Numeric property).
pub uninterp spec fn unicode_alphanumeric(c: char) -> bool;

/// Calls `char::is_alphanumeric`; the result is named. Of ASCII
/// characters only the letters and digits are alphanumeric (the
/// Alphabetic and Numeric properties hold of no other ASCII character).
#[verifier::external_body]
pub(crate) fn is_alphanumeric(c: char) -> (r: bool)
    ensures
        r == unicode_alphanumeric(c),
        ('a' <= c <= 'z' || 'A' <= c <= 'Z' || '0' <= c <= '9') ==> r,
        c < '\u{80}' && !('a' <= c <= 'z' || 'A' <= c <= 'Z' || '0' <= c <= '9') ==> !r,
{
    c.is_alphanumeric()
}

/// Characters allowed in an instance identifier.
pub open spec fn instance_id_char(c: char) -> bool {
    unicode_alphanumeric(c) || c == '-' || c == '_'
}

/// An ASCII letter or digit.
pub open spec fn ascii_letter_or_digit(c: char) -> bool {
    ('a' <= c <= 'z') || ('A' <= c <= 'Z') || ('0' <= c <= '9')
}

/// Every character of `s` is ASCII.
pub open spec fn all_ascii(s: Seq<char>) -> bool {
    forall|i: int| 0 <= i < s.len() ==> #[trigger] s[i] < '\u{80}'
}

/// On ASCII text, the instance identifier rule: non-empty, at most 128
/// bytes, made of ASCII letters, digits, `-` and `_`.
pub open spec fn valid_ascii_instance_id(id: &str) -> bool {
    &&& id@.len() > 0
    &&& id.len() <= 128
    &&& forall|i: int| 0 <= i < id@.len() ==> ascii_letter_or_digit(#[trigger] id@[i]) || id@[i] == '-' || id@[i] == '_'
}

/// An instance identifier is non-empty, at most 128 bytes long and made of
/// alphanumerics, `-` and `_`.
pub open spec fn valid_instance_id(id: &str) -> bool {
    &&& id@.len() > 0
    &&& id.len() <= 128
    &&& forall|i: int| 0 <= i < id@.len() ==> instance_id_char(#[trigger] id@[i])
}

/// Validate an instance ID format.
pub fn validate_instance_id(id: &str) -> (ok: bool)
    ensures
        ok == valid_instance_id(id),
        all_ascii(id@) ==> ok == valid_ascii_instance_id(id),
{
    if id.is_empty() || id.len() > 128 {
        return false;
    }
    let n = id.unicode_len();
    let mut i: usize = 0;
    while i < n
        invariant
            n == id@.len(),
            i <= n,
            forall|j: int| 0 <= j < i ==> instance_id_char(#[trigger] id@[j]),
            forall|j: int| 0 <= j < i && id@[j] < '\u{80}' ==>
                ascii_letter_or_digit(#[trigger] id@[j]) || id@[j] == '-' || id@[j] == '_',
        decreases n - i,
    {
        let c = id.get_char(i);
        if !(is_alphanumeric(c) || c == '-' || c == '_') {
            proof {
                if all_ascii(id@) {
                    assert(id@[i as int] < '\u{80}');
                    assert(!(ascii_letter_or_digit(id@[i as int]) || id@[i as int] == '-' || id@[i as int] == '_'));
                }
            }
            return false;
        }
        i = i + 1;
    }
    true
}

/// An account identifier is non-empty and at most 64 bytes long.
pub open spec fn valid_account_id(id: &str) -> bool {
    id@.len() > 0 && id.len() <= 64
}

/// Validate an account ID format.
pub fn validate_account_id(id: &str) -> (ok: bool)
    ensures
        ok == valid_account_id(id),
{
    !id.is_empty() && id.len() <= 64
}

} // verus!
