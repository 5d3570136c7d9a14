//! Provider regions and names, the Hetzner mappings, and provider selection
//! from the providers' reported health.

use vstd::prelude::*;
use crate::proto::{role_label, InstanceRole, InstanceTier, VpsProvider};
use vstd::string::*;
use crate::text::{decimal, owned, push_char, push_decimal, push_str, str_equal};

verus! {

/// A provider region.
#[derive(Debug)]
pub struct Region {
    pub id: String,
    pub display_name: String,
    pub city: String,
    pub country: String,
    pub continent: Continent,
    pub provider: VpsProvider,
    pub available: bool,
    pub latency_class: LatencyClass,
}

#[derive(Debug, Clone, Copy, PartialEq, Eq, Structural)]
pub enum Continent {
    EU,
    US,
    APAC,
    Other,
}

/// Latency class, ordered `Low < Medium < High`.
#[derive(Debug, Clone, Copy, PartialEq, Eq, Structural, PartialOrd, Ord)]
pub enum LatencyClass {
    Low,
    Medium,
    High,
}

impl Region {
    /// An equal copy of the region.
    pub fn clone_region(&self) -> (r: Region)
        ensures
            r == *self,
    {
        Region {
            id: self.id.clone(),
            display_name: self.display_name.clone(),
            city: self.city.clone(),
            country: self.country.clone(),
            continent: self.continent,
            provider: self.provider,
            available: self.available,
            latency_class: self.latency_class,
        }
    }
}

/// Public network of a Hetzner server.
#[derive(Debug)]
pub struct HetznerPublicNet {
    pub ipv4: Option<HetznerIpv4>,
}

#[derive(Debug)]
pub struct HetznerIpv4 {
    pub ip: String,
}

#[derive(Debug)]
pub struct HetznerMeta {
    pub pagination: HetznerPagination,
}

#[derive(Debug, Clone, Copy)]
pub struct HetznerPagination {
    pub page: u32,
    pub per_page: u32,
    pub next_page: Option<u32>,
    pub total_entries: u32,
}

/// Contabo provider (provisioning not implemented by the provider client).
#[derive(Debug)]
pub struct ContaboProvider {
    pub api_key: String,
}

/// Hostinger provider (provisioning not implemented by the provider client).
#[derive(Debug)]
pub struct HostingerProvider {
    pub api_key: String,
}

/// DigitalOcean provider (provisioning not implemented by the provider client).
#[derive(Debug)]
pub struct DigitalOceanProvider {
    pub api_token: String,
}

// ─── Names and mappings ──────────────────────────────────────────────────────

/// Registry name of a provider.
pub open spec fn provider_key(p: VpsProvider) -> Seq<char> {
    match p {
        VpsProvider::Hetzner => "hetzner"@,
        VpsProvider::Vultr => "vultr"@,
        VpsProvider::Contabo => "contabo"@,
        VpsProvider::Hostinger => "hostinger"@,
        VpsProvider::DigitalOcean => "digitalocean"@,
    }
}

/// The name a provider is registered under.
pub fn provider_name(provider: &VpsProvider) -> (r: &'static str)
    ensures
        r@ == provider_key(*provider),
{
    match provider {
        VpsProvider::Hetzner => "hetzner",
        VpsProvider::Vultr => "vultr",
        VpsProvider::Contabo => "contabo",
        VpsProvider::Hostinger => "hostinger",
        VpsProvider::DigitalOcean => "digitalocean",
    }
}

/// Hetzner server type of each tier.
pub open spec fn hetzner_type_of(t: InstanceTier) -> Seq<char> {
    match t {
        InstanceTier::Nano => "cx11"@,
        InstanceTier::Standard => "cx21"@,
        InstanceTier::Pro => "cx31"@,
        InstanceTier::Enterprise => "cx41"@,
    }
}

/// The Hetzner server type used for a tier.
pub fn hetzner_server_type(tier: &InstanceTier) -> (r: &'static str)
    ensures
        r@ == hetzner_type_of(*tier),
{
    match tier {
        InstanceTier::Nano => "cx11",
        InstanceTier::Standard => "cx21",
        InstanceTier::Pro => "cx31",
        InstanceTier::Enterprise => "cx41",
    }
}

/// Hetzner location of a region id; unknown regions go to Nuremberg.
pub open spec fn hetzner_location_of(region_id: Seq<char>) -> Seq<char> {
    if region_id == "eu-hetzner-nbg1"@ {
        "nbg1"@
    } else if region_id == "eu-hetzner-hel1"@ {
        "hel1"@
    } else if region_id == "eu-hetzner-fsn1"@ {
        "fsn1"@
    } else if region_id == "us-hetzner-ash"@ {
        "ash"@
    } else {
        "nbg1"@
    }
}

/// The Hetzner location code for a region id.
pub fn hetzner_location(region_id: &str) -> (r: &'static str)
    ensures
        r@ == hetzner_location_of(region_id@),
{
    if str_equal(region_id, "eu-hetzner-nbg1") {
        "nbg1"
    } else if str_equal(region_id, "eu-hetzner-hel1") {
        "hel1"
    } else if str_equal(region_id, "eu-hetzner-fsn1") {
        "fsn1"
    } else if str_equal(region_id, "us-hetzner-ash") {
        "ash"
    } else {
        "nbg1"
    }
}

fn region(id: &str, display_name: &str, city: &str, country: &str, continent: Continent, latency_class: LatencyClass) -> (r: Region)
    ensures
        r.id@ == id@,
        r.display_name@ == display_name@,
        r.city@ == city@,
        r.country@ == country@,
        r.continent == continent,
        r.provider == VpsProvider::Hetzner,
        r.available,
        r.latency_class == latency_class,
{
    Region {
        id: owned(id),
        display_name: owned(display_name),
        city: owned(city),
        country: owned(country),
        continent,
        provider: VpsProvider::Hetzner,
        available: true,
        latency_class,
    }
}

/// The Hetzner regions: Nuremberg, Helsinki and Falkenstein in the EU with
/// low latency, Ashburn in the US with medium latency; all available.
pub fn hetzner_regions() -> (rs: Vec<Region>)
    ensures
        rs@.len() == 4,
        rs@[0].id@ == "eu-hetzner-nbg1"@ && rs@[0].continent == Continent::EU && rs@[0].latency_class == LatencyClass::Low,
        rs@[1].id@ == "eu-hetzner-hel1"@ && rs@[1].continent == Continent::EU && rs@[1].latency_class == LatencyClass::Low,
        rs@[2].id@ == "eu-hetzner-fsn1"@ && rs@[2].continent == Continent::EU && rs@[2].latency_class == LatencyClass::Low,
        rs@[3].id@ == "us-hetzner-ash"@ && rs@[3].continent == Continent::US && rs@[3].latency_class == LatencyClass::Medium,
        forall|i: int| 0 <= i < 4 ==> #[trigger] rs@[i].provider == VpsProvider::Hetzner && rs@[i].available,
{
    let mut rs: Vec<Region> = Vec::new();
    rs.push(region("eu-hetzner-nbg1", "Hetzner Nuremberg 1", "Nuremberg", "DE", Continent::EU, LatencyClass::Low));
    rs.push(region("eu-hetzner-hel1", "Hetzner Helsinki 1", "Helsinki", "FI", Continent::EU, LatencyClass::Low));
    rs.push(region("eu-hetzner-fsn1", "Hetzner Falkenstein 1", "Falkenstein", "DE", Continent::EU, LatencyClass::Low));
    rs.push(region("us-hetzner-ash", "Hetzner Ashburn", "Ashburn", "US", Continent::US, LatencyClass::Medium));
    rs
}

// ─── Provider selection ──────────────────────────────────────────────────────

/// A registered provider with the outcome of its health check: `None` when
/// the check failed, else its score and whether it has an active incident.
pub struct ProviderCandidate {
    pub name: String,
    pub health: Option<(u8, bool)>,
    pub regions: Vec<Region>,
}

/// Whether `c` has an available region on `continent`.
pub open spec fn has_region(c: ProviderCandidate, continent: Continent) -> bool {
    exists|j: int| 0 <= j < c.regions@.len() && #[trigger] c.regions@[j].continent == continent && c.regions@[j].available
}

/// Whether `r` is the first available region of `c` on `continent`.
pub open spec fn first_region(c: ProviderCandidate, continent: Continent, r: Region) -> bool {
    exists|j: int| 0 <= j < c.regions@.len() && #[trigger] c.regions@[j] == r
        && r.continent == continent && r.available
        && forall|k: int| 0 <= k < j ==> !(#[trigger] c.regions@[k].continent == continent && c.regions@[k].available)
}

/// The preferred provider is used when healthy (score at least 75, no
/// incident) with a region on the continent.
pub open spec fn preferred_usable(c: ProviderCandidate, continent: Continent) -> bool {
    &&& c.health matches Some((score, incident))
    &&& score >= 75 && !incident
    &&& has_region(c, continent)
}

/// A fallback provider: not the preferred one, healthy enough (score at
/// least 65, no incident), with a region on the continent.
pub open spec fn fallback_usable(c: ProviderCandidate, preferred: Seq<char>, continent: Continent) -> bool {
    &&& c.name@ != preferred
    &&& c.health matches Some((score, incident))
    &&& score >= 65 && !incident
    &&& has_region(c, continent)
}

pub open spec fn score_of(c: ProviderCandidate) -> u8 {
    match c.health {
        Some((score, _)) => score,
        None => 0,
    }
}

fn first_available_region(c: &ProviderCandidate, continent: Continent) -> (r: Option<Region>)
    ensures
        r is Some <==> has_region(*c, continent),
        r matches Some(reg) ==> first_region(*c, continent, reg),
{
    let mut j: usize = 0;
    while j < c.regions.len()
        invariant
            j <= c.regions@.len(),
            forall|k: int| 0 <= k < j ==> !(#[trigger] c.regions@[k].continent == continent && c.regions@[k].available),
        decreases c.regions@.len() - j,
    {
        if c.regions[j].continent == continent && c.regions[j].available {
            let reg = c.regions[j].clone_region();
            assert(c.regions@[j as int] == reg);
            return Some(reg);
        }
        j = j + 1;
    }
    proof {
        if has_region(*c, continent) {
            let w = choose|w: int| 0 <= w < c.regions@.len() && #[trigger] c.regions@[w].continent == continent && c.regions@[w].available;
            assert(!(c.regions@[w].continent == continent && c.regions@[w].available));
        }
    }
    None
}

/// When a candidate named by the preferred provider is usable, it is the
/// one chosen.
pub open spec fn preferred_first(preferred: VpsProvider, continent: Continent, cands: Seq<ProviderCandidate>,
    r: Option<(usize, Region)>) -> bool
{
    forall|k: int| 0 <= k < cands.len() && cands[k].name@ == provider_key(preferred)
        && #[trigger] preferred_usable(cands[k], continent) ==> (r matches Some((i, _)) && i == k)
}

/// The preferred provider is never passed over when it is healthy: if the
/// candidate named by it scores at least 75, has no active incident and
/// has an available region on the continent, the selection is that
/// candidate, with its first such region, whatever the other candidates.
pub proof fn lemma_healthy_preferred_provider_chosen(preferred: VpsProvider, continent: Continent,
    cands: Seq<ProviderCandidate>, r: Option<(usize, Region)>, k: int, score: u8, j: int)
    requires
        preferred_first(preferred, continent, cands, r),
        r matches Some((i, reg)) ==> i < cands.len() && first_region(cands[i as int], continent, reg),
        0 <= k < cands.len(),
        cands[k].name@ == provider_key(preferred),
        cands[k].health == Some((score, false)),
        score >= 75,
        0 <= j < cands[k].regions@.len(),
        cands[k].regions@[j].continent == continent,
        cands[k].regions@[j].available,
    ensures
        (r matches Some((i, reg)) && i == k && first_region(cands[k], continent, reg)),
{
    assert(has_region(cands[k], continent));
    assert(preferred_usable(cands[k], continent));
}

/// Choose a provider and region for a new instance on `continent`: the
/// first provider named `preferred` if it is usable; otherwise the usable
/// fallback provider with the highest health score (the first such in
/// `candidates` on ties). The region is the candidate's first available
/// one on the continent.
pub fn select_provider(preferred: &VpsProvider, continent: Continent, candidates: &Vec<ProviderCandidate>)
    -> (r: Option<(usize, Region)>)
    requires
        forall|a: int, b: int| 0 <= a < candidates@.len() && 0 <= b < candidates@.len() && a != b
            ==> #[trigger] candidates@[a].name@ != #[trigger] candidates@[b].name@,
    ensures
        match r {
            Some((i, reg)) => {
                &&& i < candidates@.len()
                &&& first_region(candidates@[i as int], continent, reg)
                &&& (
                    (candidates@[i as int].name@ == provider_key(*preferred) && preferred_usable(candidates@[i as int], continent))
                    || (fallback_usable(candidates@[i as int], provider_key(*preferred), continent)
                        && forall|k: int| 0 <= k < candidates@.len()
                            && fallback_usable(#[trigger] candidates@[k], provider_key(*preferred), continent)
                            ==> score_of(candidates@[k]) <= score_of(candidates@[i as int])))
            },
            None => forall|k: int| 0 <= k < candidates@.len() ==>
                !(#[trigger] fallback_usable(candidates@[k], provider_key(*preferred), continent))
                && !(candidates@[k].name@ == provider_key(*preferred) && preferred_usable(candidates@[k], continent)),
        },
        preferred_first(*preferred, continent, candidates@, r),
{
    let pname = provider_name(preferred);
    // The preferred provider, looked up by name.
    let mut found: Option<usize> = None;
    let mut q: usize = 0;
    while q < candidates.len()
        invariant
            q <= candidates@.len(),
            pname@ == provider_key(*preferred),
            found matches Some(f) ==> f < q && candidates@[f as int].name@ == provider_key(*preferred),
            found is None ==> forall|k: int| 0 <= k < q ==> #[trigger] candidates@[k].name@ != provider_key(*preferred),
        decreases candidates@.len() - q,
    {
        if found.is_none() && str_equal(candidates[q].name.as_str(), pname) {
            found = Some(q);
        }
        q = q + 1;
    }
    match found {
        Some(p) => {
            let c = &candidates[p];
            match c.health {
                Some((score, incident)) => {
                    if score >= 75 && !incident {
                        match first_available_region(c, continent) {
                            Some(reg) => { return Some((p, reg)); },
                            None => {},
                        }
                    }
                },
                None => {},
            }
        },
        None => {},
    }
    proof {
        assert forall|k: int| 0 <= k < candidates@.len() implies
            !(candidates@[k].name@ == provider_key(*preferred) && preferred_usable(#[trigger] candidates@[k], continent)) by {
            if candidates@[k].name@ == provider_key(*preferred) && preferred_usable(candidates@[k], continent) {
                let f = found->0;
                if f != k {
                    assert(candidates@[f as int].name@ != candidates@[k].name@);
                }
            }
        }
    }
    // Fallback: the best-scoring usable provider other than the preferred one.
    let mut best: Option<usize> = None;
    let mut i: usize = 0;
    while i < candidates.len()
        invariant
            i <= candidates@.len(),
            pname@ == provider_key(*preferred),
            best matches Some(b) ==> b < i && fallback_usable(candidates@[b as int], provider_key(*preferred), continent),
            forall|k: int| 0 <= k < i && fallback_usable(#[trigger] candidates@[k], provider_key(*preferred), continent)
                ==> best is Some && score_of(candidates@[k]) <= score_of(candidates@[best->0 as int]),
        decreases candidates@.len() - i,
    {
        let c = &candidates[i];
        if !str_equal(c.name.as_str(), pname) {
            match c.health {
                Some((score, incident)) => {
                    if score >= 65 && !incident {
                        let has = first_available_region(c, continent).is_some();
                        if has {
                            let better = match best {
                                None => true,
                                Some(b) => match candidates[b].health {
                                    Some((bs, _)) => score > bs,
                                    None => true,
                                },
                            };
                            if better {
                                best = Some(i);
                            }
                        }
                    }
                },
                None => {},
            }
        }
        i = i + 1;
    }
    match best {
        Some(b) => {
            let reg = first_available_region(&candidates[b], continent);
            match reg {
                Some(reg) => Some((b, reg)),
                None => None,
            }
        },
        None => {
            proof {
                assert forall|k: int| 0 <= k < candidates@.len() implies
                    !(candidates@[k].name@ == provider_key(*preferred) && preferred_usable(#[trigger] candidates@[k], continent)) by {
                    if candidates@[k].name@ == provider_key(*preferred) && preferred_usable(candidates@[k], continent) {
                        let f = found->0;
                        if f != k {
                            assert(candidates@[f as int].name@ != candidates@[k].name@);
                        }
                    }
                }
            }
            None
        },
    }
}


// ─── Bootstrap script ────────────────────────────────────────────────────────

/// The pair id of a bootstrap script: the paired instance, or empty.
pub open spec fn pair_text(p: Option<&str>) -> Seq<char> {
    match p {
        Some(s) => s@,
        None => Seq::empty(),
    }
}

/// The cloud-init bootstrap script of a new instance: installs Docker,
/// joins Tailscale, installs ClawNode with its config and service, and
/// starts it.
pub open spec fn cloud_init_text(instance_id: Seq<char>, account_id: Seq<char>, gateway_url: Seq<char>,
    api_key: Seq<char>, role: InstanceRole, pair_instance_id: Option<&str>, tier: Seq<char>, provider: Seq<char>,
    region: Seq<char>, tailscale_auth_key: Seq<char>, clawnode_url: Seq<char>) -> Seq<char>
{
    "#!/bin/bash\nset -euo pipefail\nexport DEBIAN_FRONTEND=noninteractive\napt-get update -qq\napt-get install -y -qq curl wget ca-certificates gnupg lsb-release\n# Docker\ncurl -fsSL https://download.docker.com/linux/ubuntu/gpg | gpg --dearmor -o /usr/share/keyrings/docker-archive-keyring.gpg\necho \"deb [arch=amd64 signed-by=/usr/share/keyrings/docker-archive-keyring.gpg] https://download.docker.com/linux/ubuntu $(lsb_release -cs) stable\" > /etc/apt/sources.list.d/docker.list\napt-get update -qq\napt-get install -y -qq docker-ce docker-ce-cli containerd.io docker-compose-plugin\nsystemctl enable docker && systemctl start docker\n# Tailscale\ncurl -fsSL https://tailscale.com/install.sh | sh\ntailscale up --authkey=\""@
        + tailscale_auth_key
        + "\" --hostname=\"co-"@
        + instance_id
        + "\" --accept-routes\n# ClawNode\nmkdir -p /usr/local/bin /etc/clawnode /var/log/clawnode\nwget -q -O /usr/local/bin/clawnode \""@
        + clawnode_url
        + "\"\nchmod +x /usr/local/bin/clawnode\ncat > /etc/clawnode/config.json << 'CONFIG_EOF'\n{\n  \"instance_id\": \""@
        + instance_id
        + "\",\n  \"account_id\": \""@
        + account_id
        + "\",\n  \"gateway\": \""@
        + gateway_url
        + "\",\n  \"token\": \""@
        + api_key
        + "\",\n  \"provider\": \""@
        + provider
        + "\",\n  \"region\": \""@
        + region
        + "\",\n  \"tier\": \""@
        + tier
        + "\",\n  \"role\": \""@
        + role_label(role)
        + "\",\n  \"pair_instance_id\": \""@
        + pair_text(pair_instance_id)
        + "\",\n  \"heartbeat_interval_secs\": 30\n}\nCONFIG_EOF\ncat > /etc/systemd/system/clawnode.service << 'SERVICE_EOF'\n[Unit]\nDescription=ClawOps ClawNode Agent\nAfter=network.target docker.service tailscaled.service\nRequires=docker.service\n[Service]\nType=simple\nExecStart=/usr/local/bin/clawnode run --config /etc/clawnode/config.json\nRestart=always\nRestartSec=10\nStandardOutput=journal\nStandardError=journal\nSyslogIdentifier=clawnode\n[Install]\nWantedBy=multi-user.target\nSERVICE_EOF\nsystemctl daemon-reload && systemctl enable clawnode && systemctl start clawnode\necho \"clawnode bootstrap complete - instance "@
        + instance_id
        + "\"\n"@
}

/// The cloud-init bootstrap script of a new instance, given the Tailscale
/// auth key and the ClawNode binary URL to use.
pub fn cloud_init_script_with(instance_id: &str, account_id: &str, gateway_url: &str, api_key: &str,
    role: &InstanceRole, pair_instance_id: Option<&str>, tier: &str, provider: &str, region: &str,
    tailscale_auth_key: &str, clawnode_url: &str) -> (s: String)
    ensures
        s@ == cloud_init_text(instance_id@, account_id@, gateway_url@, api_key@, *role, pair_instance_id, tier@,
            provider@, region@, tailscale_auth_key@, clawnode_url@),
{
    let role_word = match role {
        InstanceRole::Primary => "primary",
        InstanceRole::Standby => "standby",
    };
    let pair_id = match pair_instance_id {
        Some(p) => p,
        None => "",
    };
    proof {
        reveal_strlit("");
    }
    assert(pair_id@ =~= pair_text(pair_instance_id));
    let mut s = owned("#!/bin/bash\nset -euo pipefail\nexport DEBIAN_FRONTEND=noninteractive\napt-get update -qq\napt-get install -y -qq curl wget ca-certificates gnupg lsb-release\n# Docker\ncurl -fsSL https://download.docker.com/linux/ubuntu/gpg | gpg --dearmor -o /usr/share/keyrings/docker-archive-keyring.gpg\necho \"deb [arch=amd64 signed-by=/usr/share/keyrings/docker-archive-keyring.gpg] https://download.docker.com/linux/ubuntu $(lsb_release -cs) stable\" > /etc/apt/sources.list.d/docker.list\napt-get update -qq\napt-get install -y -qq docker-ce docker-ce-cli containerd.io docker-compose-plugin\nsystemctl enable docker && systemctl start docker\n# Tailscale\ncurl -fsSL https://tailscale.com/install.sh | sh\ntailscale up --authkey=\"");
    push_str(&mut s, tailscale_auth_key);
    push_str(&mut s, "\" --hostname=\"co-");
    push_str(&mut s, instance_id);
    push_str(&mut s, "\" --accept-routes\n# ClawNode\nmkdir -p /usr/local/bin /etc/clawnode /var/log/clawnode\nwget -q -O /usr/local/bin/clawnode \"");
    push_str(&mut s, clawnode_url);
    push_str(&mut s, "\"\nchmod +x /usr/local/bin/clawnode\ncat > /etc/clawnode/config.json << 'CONFIG_EOF'\n{\n  \"instance_id\": \"");
    push_str(&mut s, instance_id);
    push_str(&mut s, "\",\n  \"account_id\": \"");
    push_str(&mut s, account_id);
    push_str(&mut s, "\",\n  \"gateway\": \"");
    push_str(&mut s, gateway_url);
    push_str(&mut s, "\",\n  \"token\": \"");
    push_str(&mut s, api_key);
    push_str(&mut s, "\",\n  \"provider\": \"");
    push_str(&mut s, provider);
    push_str(&mut s, "\",\n  \"region\": \"");
    push_str(&mut s, region);
    push_str(&mut s, "\",\n  \"tier\": \"");
    push_str(&mut s, tier);
    push_str(&mut s, "\",\n  \"role\": \"");
    push_str(&mut s, role_word);
    push_str(&mut s, "\",\n  \"pair_instance_id\": \"");
    push_str(&mut s, pair_id);
    push_str(&mut s, "\",\n  \"heartbeat_interval_secs\": 30\n}\nCONFIG_EOF\ncat > /etc/systemd/system/clawnode.service << 'SERVICE_EOF'\n[Unit]\nDescription=ClawOps ClawNode Agent\nAfter=network.target docker.service tailscaled.service\nRequires=docker.service\n[Service]\nType=simple\nExecStart=/usr/local/bin/clawnode run --config /etc/clawnode/config.json\nRestart=always\nRestartSec=10\nStandardOutput=journal\nStandardError=journal\nSyslogIdentifier=clawnode\n[Install]\nWantedBy=multi-user.target\nSERVICE_EOF\nsystemctl daemon-reload && systemctl enable clawnode && systemctl start clawnode\necho \"clawnode bootstrap complete - instance ");
    push_str(&mut s, instance_id);
    push_str(&mut s, "\"\n");
    s
}

// ─── Hetzner server creation ─────────────────────────────────────────────────

/// The name of a new Hetzner server: `co-<account>-<first 8 characters of
/// the request id>`.
pub open spec fn server_name_text(account_id: Seq<char>, request_id: Seq<char>) -> Seq<char> {
    "co-"@ + account_id + "-"@ + request_id.take(8)
}

/// Names a new Hetzner server after its account and request.
pub fn hetzner_server_name(account_id: &str, request_id: &str) -> (r: String)
    requires
        request_id@.len() >= 8,
    ensures
        r@ == server_name_text(account_id@, request_id@),
{
    let mut r = owned("co-");
    push_str(&mut r, account_id);
    push_str(&mut r, "-");
    let ghost head = r@;
    let mut i: usize = 0;
    while i < 8
        invariant
            i <= 8,
            request_id@.len() >= 8,
            r@ == head + request_id@.take(i as int),
        decreases 8 - i,
    {
        push_char(&mut r, request_id.get_char(i));
        assert(request_id@.take(i as int + 1) =~= request_id@.take(i as int).push(request_id@[i as int]));
        assert(r@ =~= head + request_id@.take(i as int + 1));
        i = i + 1;
    }
    r
}

/// Longest wait for a new server, in polls (one every five seconds).
pub const MAX_SERVER_POLLS: u32 = 120;

/// What to do after poll `attempt` (from 0) of a new server saw `status`.
pub enum ServerWait {
    /// The server runs.
    Ready,
    /// Poll again.
    Wait,
    /// Give up with this error.
    Fail(String),
}

/// The step after a poll: ready when running; a failure when the server is
/// off or in error, or after the last poll; else wait.
pub open spec fn wait_step(server_id: u64, attempt: u32, status: Seq<char>) -> (bool, Option<Seq<char>>) {
    if status == "running"@ {
        (true, None)
    } else if status == "off"@ || status == "error"@ {
        (false, Some("server "@ + decimal(server_id as nat) + " entered unexpected state: "@ + status))
    } else if attempt + 1 >= 120 {
        (false, Some("timeout waiting for Hetzner server "@ + decimal(server_id as nat) + " to reach running state"@))
    } else {
        (false, None)
    }
}

/// Decides, after a poll, whether the new server is ready, failed, or is
/// to be polled again.
pub fn server_wait_step(server_id: u64, attempt: u32, status: &str) -> (r: ServerWait)
    ensures
        match r {
            ServerWait::Ready => wait_step(server_id, attempt, status@) == (true, None::<Seq<char>>),
            ServerWait::Wait => wait_step(server_id, attempt, status@) == (false, None::<Seq<char>>),
            ServerWait::Fail(m) => wait_step(server_id, attempt, status@) == (false, Some(m@)),
        },
{
    if str_equal(status, "running") {
        ServerWait::Ready
    } else if str_equal(status, "off") || str_equal(status, "error") {
        let mut m = owned("server ");
        push_decimal(&mut m, server_id);
        push_str(&mut m, " entered unexpected state: ");
        push_str(&mut m, status);
        ServerWait::Fail(m)
    } else if attempt >= MAX_SERVER_POLLS - 1 {
        let mut m = owned("timeout waiting for Hetzner server ");
        push_decimal(&mut m, server_id);
        push_str(&mut m, " to reach running state");
        ServerWait::Fail(m)
    } else {
        ServerWait::Wait
    }
}

/// Waiting never goes past the last poll: the last poll either finds the
/// server running or fails.
pub proof fn lemma_wait_is_bounded(server_id: u64, status: Seq<char>)
    ensures
        wait_step(server_id, 119, status).0 || wait_step(server_id, 119, status).1 is Some,
{
}

} // verus!
