//! The Triage agent: incident severity classification, the incident
//! records and their timeline, root-cause determination and incident
//! reports.

use vstd::prelude::*;
use crate::text::{owned, push_decimal, push_str, str_equal, decimal, string_views};
use crate::sources::{clock_millis, now_millis, random_uuid};
use crate::proto::{provider_label, CheckStatus, HealthCheck, VpsProvider};
use crate::text::{contains_str, has_infix};

verus! {

/// Severity levels, ordered `P4 < P3 < P2 < P1` (P1 is the most severe).
#[derive(Debug, Clone, Copy, PartialEq, Eq, Structural, PartialOrd, Ord)]
pub enum Severity {
    /// Cosmetic / no user impact.
    P4,
    /// Single instance affected.
    P3,
    /// More than 10 users affected.
    P2,
    /// More than 50 users affected or data-loss risk.
    P1,
}

/// Display name of a severity.
pub open spec fn severity_label(s: Severity) -> Seq<char> {
    match s {
        Severity::P1 => "P1"@,
        Severity::P2 => "P2"@,
        Severity::P3 => "P3"@,
        Severity::P4 => "P4"@,
    }
}

/// Rank of a severity: P4 is 0, P1 is 3.
pub open spec fn severity_rank(s: Severity) -> int {
    match s {
        Severity::P4 => 0,
        Severity::P3 => 1,
        Severity::P2 => 2,
        Severity::P1 => 3,
    }
}

impl Severity {
    /// The severity's display name (`P1` ... `P4`).
    pub fn to_string(&self) -> (r: String)
        ensures
            r@ == severity_label(*self),
    {
        match self {
            Severity::P1 => owned("P1"),
            Severity::P2 => owned("P2"),
            Severity::P3 => owned("P3"),
            Severity::P4 => owned("P4"),
        }
    }
}

/// P1 for more than 50 users or a data-loss risk, P2 for more than 10
/// users, P3 for 1 to 10 users, P4 for none.
pub open spec fn severity_for(affected_users: u32, data_loss_risk: bool) -> Severity {
    if data_loss_risk || affected_users > 50 {
        Severity::P1
    } else if affected_users > 10 {
        Severity::P2
    } else if affected_users >= 1 {
        Severity::P3
    } else {
        Severity::P4
    }
}

/// Classify severity from affected user count and data-loss risk.
pub fn classify_severity(affected_users: u32, data_loss_risk: bool) -> (s: Severity)
    ensures
        s == severity_for(affected_users, data_loss_risk),
{
    if data_loss_risk || affected_users > 50 {
        Severity::P1
    } else if affected_users > 10 {
        Severity::P2
    } else if affected_users >= 1 {
        Severity::P3
    } else {
        Severity::P4
    }
}

/// More affected users never lower the severity, and a data-loss risk is
/// always P1.
pub proof fn lemma_severity_monotone(a: u32, b: u32, risk: bool)
    requires
        a <= b,
    ensures
        severity_rank(severity_for(a, risk)) <= severity_rank(severity_for(b, risk)),
        severity_for(a, true) == Severity::P1,
{
}

#[derive(Debug, Clone, Copy, PartialEq, Eq, Structural)]
pub enum IncidentStatus {
    Open,
    Investigating,
    Mitigated,
    Resolved,
}

#[derive(Debug, Clone, Copy, PartialEq, Eq, Structural)]
pub enum RootCauseCategory {
    ProviderOutage,
    HardwareFailure,
    NetworkIssue,
    ConfigurationError,
    ResourceExhaustion,
    SoftwareBug,
    Unknown,
}

/// The determined root cause of an incident.
#[derive(Debug, Clone)]
pub struct RootCause {
    pub category: RootCauseCategory,
    pub description: String,
    pub confidence: RootCauseConfidence,
    pub evidence: Vec<String>,
}

#[derive(Debug, Clone, Copy, PartialEq, Eq, Structural)]
pub enum RootCauseConfidence {
    High,
    Medium,
    Low,
}

// ─── Timeline and incidents ──────────────────────────────────────────────────

/// One step in an incident's history. Times are milliseconds since the
/// Unix epoch, UTC.
#[derive(Debug, Clone)]
pub struct TimelineEntry {
    pub timestamp: i64,
    pub actor: String,
    pub action: String,
    pub outcome: String,
}

impl TimelineEntry {
    pub fn clone_entry(&self) -> (r: TimelineEntry)
        ensures
            r == *self,
    {
        TimelineEntry {
            timestamp: self.timestamp,
            actor: self.actor.clone(),
            action: self.action.clone(),
            outcome: self.outcome.clone(),
        }
    }
}

/// The event that triggers incident creation.
#[derive(Debug, Clone)]
pub struct HealthEvent {
    pub instance_id: String,
    pub account_id: String,
    pub health_score: u8,
    pub provider: VpsProvider,
    pub region: String,
    pub description: String,
    pub affected_users: u32,
    pub data_loss_risk: bool,
    pub detected_at: i64,
}

/// A fully structured incident record.
#[derive(Debug, Clone)]
pub struct Incident {
    pub id: String,
    pub severity: Severity,
    pub title: String,
    pub description: String,
    pub status: IncidentStatus,
    pub affected_instances: Vec<String>,
    pub affected_users: u32,
    pub provider: VpsProvider,
    pub region: String,
    pub timeline: Vec<TimelineEntry>,
    pub root_cause: Option<RootCause>,
    pub actions_taken: Vec<String>,
    pub created_at: i64,
    pub resolved_at: Option<i64>,
}

/// Whole minutes between the creation of an incident and `end`, as an
/// absolute value.
pub open spec fn minutes_between(created: i64, end: i64) -> int {
    let d = end - created;
    (if d < 0 { -d } else { d }) / 60000
}

/// Duration of `inc` in whole minutes, up to its resolution or to `now`.
pub open spec fn incident_minutes(inc: Incident, now: i64) -> int {
    minutes_between(inc.created_at, match inc.resolved_at {
        Some(t) => t,
        None => now,
    })
}

impl Incident {
    /// Duration in whole minutes from creation to resolution, or to `now`
    /// while unresolved.
    pub fn duration_mins_at(&self, now: i64) -> (r: u64)
        ensures
            r == incident_minutes(*self, now),
    {
        let end = match self.resolved_at {
            Some(t) => t,
            None => now,
        };
        let d: i128 = end as i128 - self.created_at as i128;
        let a: i128 = if d < 0 { -d } else { d };
        (a / 60000) as u64
    }

    /// Duration in whole minutes from creation to resolution, or to the
    /// current time while unresolved: what `duration_mins_at` answers for
    /// some reading of the clock.
    pub fn duration_mins(&self) -> (r: u64)
        ensures
            exists|now: i64| clock_millis(now) && r == #[trigger] incident_minutes(*self, now),
            self.resolved_at is Some ==> r == incident_minutes(*self, 0),
    {
        let now = now_millis();
        self.duration_mins_at(now)
    }
}

/// `after` is `before` with incident `id` set to `status` (and, when that
/// is `Resolved`, resolved at `now`), nothing else changed; when there is
/// no such incident nothing changes and the answer is the not-found error.
pub open spec fn status_updated(before: Seq<Incident>, after: Seq<Incident>, id: Seq<char>, status: IncidentStatus,
    now: i64, r: Result<(), String>) -> bool
{
    match incident_position(before, id) {
        Some(k) => {
            &&& r is Ok
            &&& after.len() == before.len()
            &&& forall|j: int| 0 <= j < before.len() && j != k ==> after[j] == before[j]
            &&& same_but_status(before[k], after[k])
            &&& after[k].status == status
            &&& after[k].resolved_at == (if status == IncidentStatus::Resolved {
                Some(now)
            } else {
                before[k].resolved_at
            })
        },
        None => r matches Err(m) && m@ == not_found_message(id) && after == before,
    }
}

/// Position of the first incident with id `id`.
pub open spec fn incident_position(s: Seq<Incident>, id: Seq<char>) -> Option<int> {
    if exists|k: int| 0 <= k < s.len() && #[trigger] s[k].id@ == id
        && forall|j: int| 0 <= j < k ==> s[j].id@ != id {
        Some(choose|k: int| 0 <= k < s.len() && #[trigger] s[k].id@ == id
            && forall|j: int| 0 <= j < k ==> s[j].id@ != id)
    } else {
        None
    }
}

proof fn lemma_position_is(s: Seq<Incident>, id: Seq<char>, i: int)
    requires
        0 <= i < s.len(),
        s[i].id@ == id,
        forall|j: int| 0 <= j < i ==> s[j].id@ != id,
    ensures
        incident_position(s, id) == Some(i),
{
    let k = choose|k: int| 0 <= k < s.len() && #[trigger] s[k].id@ == id
        && forall|j: int| 0 <= j < k ==> s[j].id@ != id;
    assert(0 <= i < s.len() && s[i].id@ == id && forall|j: int| 0 <= j < i ==> s[j].id@ != id);
    assert(k == i);
}

/// `b` is `a` with only the timeline changed.
pub open spec fn same_but_timeline(a: Incident, b: Incident) -> bool {
    &&& a.id == b.id
    &&& a.severity == b.severity
    &&& a.title == b.title
    &&& a.description == b.description
    &&& a.status == b.status
    &&& a.affected_instances@ == b.affected_instances@
    &&& a.affected_users == b.affected_users
    &&& a.provider == b.provider
    &&& a.region == b.region
    &&& a.root_cause == b.root_cause
    &&& a.actions_taken@ == b.actions_taken@
    &&& a.created_at == b.created_at
    &&& a.resolved_at == b.resolved_at
}

/// `b` is `a` with only status and resolution time changed.
pub open spec fn same_but_status(a: Incident, b: Incident) -> bool {
    &&& a.id == b.id
    &&& a.severity == b.severity
    &&& a.title == b.title
    &&& a.description == b.description
    &&& a.affected_instances@ == b.affected_instances@
    &&& a.affected_users == b.affected_users
    &&& a.provider == b.provider
    &&& a.region == b.region
    &&& a.timeline@ == b.timeline@
    &&& a.root_cause == b.root_cause
    &&& a.actions_taken@ == b.actions_taken@
    &&& a.created_at == b.created_at
}

/// `b` is `a` with only the affected instances changed.
pub open spec fn same_but_instances(a: Incident, b: Incident) -> bool {
    &&& a.id == b.id
    &&& a.severity == b.severity
    &&& a.title == b.title
    &&& a.description == b.description
    &&& a.status == b.status
    &&& a.affected_users == b.affected_users
    &&& a.provider == b.provider
    &&& a.region == b.region
    &&& a.timeline@ == b.timeline@
    &&& a.root_cause == b.root_cause
    &&& a.actions_taken@ == b.actions_taken@
    &&& a.created_at == b.created_at
    &&& a.resolved_at == b.resolved_at
}

/// The message of an operation on an unknown incident.
pub open spec fn not_found_message(id: Seq<char>) -> Seq<char> {
    "Incident "@ + id + " not found"@
}

fn not_found(id: &str) -> (r: String)
    ensures
        r@ == not_found_message(id@),
{
    let mut m = owned("Incident ");
    push_str(&mut m, id);
    push_str(&mut m, " not found");
    m
}

/// Title of an incident: `[severity] provider region — description (score: n)`.
pub open spec fn incident_title(t: HealthEvent, sev: Severity) -> Seq<char> {
    "["@ + severity_label(sev) + "] "@ + provider_label(t.provider) + " "@ + t.region@ + " — "@
        + t.description@ + " (score: "@ + decimal(t.health_score as nat) + ")"@
}

/// Outcome text of the first timeline entry.
pub open spec fn detected_outcome(t: HealthEvent) -> Seq<char> {
    "Health event detected: "@ + t.description@ + " — score "@ + decimal(t.health_score as nat)
}

/// `inc` is the incident opened for `t` under id `id`.
pub open spec fn opened_incident(inc: Incident, t: HealthEvent, id: Seq<char>) -> bool {
    let sev = severity_for(t.affected_users, t.data_loss_risk);
    &&& inc.id@ == id
    &&& inc.severity == sev
    &&& inc.title@ == incident_title(t, sev)
    &&& inc.description == t.description
    &&& inc.status == IncidentStatus::Open
    &&& inc.affected_instances@ == seq![t.instance_id]
    &&& inc.affected_users == t.affected_users
    &&& inc.provider == t.provider
    &&& inc.region == t.region
    &&& inc.timeline@.len() == 1
    &&& inc.timeline@[0].timestamp == t.detected_at
    &&& inc.timeline@[0].actor@ == "guardian"@
    &&& inc.timeline@[0].action@ == "detected"@
    &&& inc.timeline@[0].outcome@ == detected_outcome(t)
    &&& inc.root_cause is None
    &&& inc.actions_taken@.len() == 0
    &&& inc.created_at == t.detected_at
    &&& inc.resolved_at is None
}

// ─── Incident manager ────────────────────────────────────────────────────────

/// The Triage agent's incident lifecycle manager.
pub struct IncidentManager {
    incidents: Vec<Incident>,
}

impl IncidentManager {
    /// The incidents, oldest first.
    pub closed spec fn incidents(&self) -> Seq<Incident> {
        self.incidents@
    }

    pub fn new() -> (m: Self)
        ensures
            m.incidents() == Seq::<Incident>::empty(),
    {
        IncidentManager { incidents: Vec::new() }
    }

    /// Opens an incident for `trigger` under the id `id`: severity from the
    /// affected users and data-loss risk, one timeline entry, status Open.
    pub fn create_incident_with_id(&mut self, trigger: HealthEvent, id: String) -> (r: &Incident)
        ensures
            final(self).incidents().len() == old(self).incidents().len() + 1,
            final(self).incidents().drop_last() == old(self).incidents(),
            opened_incident(final(self).incidents().last(), trigger, id@),
            *r == final(self).incidents().last(),
    {
        let severity = classify_severity(trigger.affected_users, trigger.data_loss_risk);
        let mut title = owned("[");
        let sev = severity.to_string();
        push_str(&mut title, sev.as_str());
        push_str(&mut title, "] ");
        let prov = trigger.provider.to_string();
        push_str(&mut title, prov.as_str());
        push_str(&mut title, " ");
        push_str(&mut title, trigger.region.as_str());
        push_str(&mut title, " — ");
        push_str(&mut title, trigger.description.as_str());
        push_str(&mut title, " (score: ");
        push_decimal(&mut title, trigger.health_score as u64);
        push_str(&mut title, ")");
        let mut outcome = owned("Health event detected: ");
        push_str(&mut outcome, trigger.description.as_str());
        push_str(&mut outcome, " — score ");
        push_decimal(&mut outcome, trigger.health_score as u64);
        let initial_entry = TimelineEntry {
            timestamp: trigger.detected_at,
            actor: owned("guardian"),
            action: owned("detected"),
            outcome,
        };
        let mut timeline = Vec::new();
        timeline.push(initial_entry);
        let mut affected = Vec::new();
        affected.push(trigger.instance_id);
        let incident = Incident {
            id,
            severity,
            title,
            description: trigger.description,
            status: IncidentStatus::Open,
            affected_instances: affected,
            affected_users: trigger.affected_users,
            provider: trigger.provider,
            region: trigger.region,
            timeline,
            root_cause: None,
            actions_taken: Vec::new(),
            created_at: trigger.detected_at,
            resolved_at: None,
        };
        self.incidents.push(incident);
        assert(self.incidents@.drop_last() =~= old(self).incidents@);
        let n = self.incidents.len();
        &self.incidents[n - 1]
    }

    /// Opens an incident for `trigger` under a fresh random id.
    pub fn create_incident(&mut self, trigger: HealthEvent) -> (r: &Incident)
        ensures
            final(self).incidents().len() == old(self).incidents().len() + 1,
            final(self).incidents().drop_last() == old(self).incidents(),
            opened_incident(final(self).incidents().last(), trigger, final(self).incidents().last().id@),
            *r == final(self).incidents().last(),
    {
        let id = random_uuid();
        self.create_incident_with_id(trigger, id)
    }

    fn position(&self, incident_id: &str) -> (r: Option<usize>)
        ensures
            match r {
                Some(i) => i < self.incidents@.len() && incident_position(self.incidents@, incident_id@) == Some(i as int),
                None => incident_position(self.incidents@, incident_id@) is None,
            },
    {
        let mut i: usize = 0;
        while i < self.incidents.len()
            invariant
                i <= self.incidents@.len(),
                forall|j: int| 0 <= j < i ==> self.incidents@[j].id@ != incident_id@,
            decreases self.incidents@.len() - i,
        {
            if str_equal(self.incidents[i].id.as_str(), incident_id) {
                proof {
                    lemma_position_is(self.incidents@, incident_id@, i as int);
                }
                return Some(i);
            }
            i = i + 1;
        }
        proof {
            if exists|k: int| 0 <= k < self.incidents@.len() && #[trigger] self.incidents@[k].id@ == incident_id@
                && forall|j: int| 0 <= j < k ==> self.incidents@[j].id@ != incident_id@ {
                let k = choose|k: int| 0 <= k < self.incidents@.len() && #[trigger] self.incidents@[k].id@ == incident_id@
                    && forall|j: int| 0 <= j < k ==> self.incidents@[j].id@ != incident_id@;
                assert(self.incidents@[k].id@ != incident_id@);
            }
        }
        None
    }

    /// The first incident with id `incident_id`.
    pub fn get(&self, incident_id: &str) -> (r: Option<&Incident>)
        ensures
            match incident_position(self.incidents(), incident_id@) {
                Some(k) => r == Some(&self.incidents()[k]),
                None => r is None,
            },
    {
        match self.position(incident_id) {
            Some(i) => Some(&self.incidents[i]),
            None => None,
        }
    }

    /// Appends `entry` to the timeline of the incident `incident_id`.
    pub fn add_timeline_entry(&mut self, incident_id: &str, entry: TimelineEntry) -> (r: Result<(), String>)
        ensures
            match incident_position(old(self).incidents(), incident_id@) {
                Some(k) => {
                    &&& r is Ok
                    &&& final(self).incidents().len() == old(self).incidents().len()
                    &&& forall|j: int| 0 <= j < old(self).incidents().len() && j != k
                        ==> final(self).incidents()[j] == old(self).incidents()[j]
                    &&& same_but_timeline(old(self).incidents()[k], final(self).incidents()[k])
                    &&& final(self).incidents()[k].timeline@ == old(self).incidents()[k].timeline@.push(entry)
                },
                None => r matches Err(m) && m@ == not_found_message(incident_id@)
                    && final(self).incidents() == old(self).incidents(),
            },
    {
        match self.position(incident_id) {
            Some(i) => {
                let mut inc = self.incidents.remove(i);
                inc.timeline.push(entry);
                self.incidents.insert(i, inc);
                Ok(())
            },
            None => Err(not_found(incident_id)),
        }
    }

    /// Sets the status of incident `incident_id`; resolving it records `now`
    /// as its resolution time.
    pub fn update_status_at(&mut self, incident_id: &str, status: IncidentStatus, now: i64) -> (r: Result<(), String>)
        ensures
            status_updated(old(self).incidents(), final(self).incidents(), incident_id@, status, now, r),
    {
        match self.position(incident_id) {
            Some(i) => {
                let mut inc = self.incidents.remove(i);
                inc.status = status;
                if status == IncidentStatus::Resolved {
                    inc.resolved_at = Some(now);
                }
                self.incidents.insert(i, inc);
                Ok(())
            },
            None => Err(not_found(incident_id)),
        }
    }

    /// Sets the status of incident `incident_id`; resolving it records the
    /// current time as its resolution time.
    pub fn update_status(&mut self, incident_id: &str, status: IncidentStatus) -> (r: Result<(), String>)
        ensures
            exists|now: i64| clock_millis(now)
                && #[trigger] status_updated(old(self).incidents(), final(self).incidents(), incident_id@, status, now, r),
    {
        let now = now_millis();
        self.update_status_at(incident_id, status, now)
    }

    /// Adds `instance_id` to the affected instances of incident
    /// `incident_id`, unless it is listed already.
    pub fn add_affected_instance(&mut self, incident_id: &str, instance_id: String) -> (r: Result<(), String>)
        ensures
            match incident_position(old(self).incidents(), incident_id@) {
                Some(k) => {
                    &&& r is Ok
                    &&& final(self).incidents().len() == old(self).incidents().len()
                    &&& forall|j: int| 0 <= j < old(self).incidents().len() && j != k
                        ==> final(self).incidents()[j] == old(self).incidents()[j]
                    &&& same_but_instances(old(self).incidents()[k], final(self).incidents()[k])
                    &&& final(self).incidents()[k].affected_instances@ == (
                        if string_views(old(self).incidents()[k].affected_instances@).contains(instance_id@) {
                            old(self).incidents()[k].affected_instances@
                        } else {
                            old(self).incidents()[k].affected_instances@.push(instance_id)
                        })
                },
                None => r matches Err(m) && m@ == not_found_message(incident_id@)
                    && final(self).incidents() == old(self).incidents(),
            },
    {
        match self.position(incident_id) {
            Some(i) => {
                let mut inc = self.incidents.remove(i);
                let mut found = false;
                let mut j: usize = 0;
                while j < inc.affected_instances.len()
                    invariant
                        j <= inc.affected_instances@.len(),
                        found <==> exists|x: int| 0 <= x < j && #[trigger] inc.affected_instances@[x]@ == instance_id@,
                    decreases inc.affected_instances@.len() - j,
                {
                    if str_equal(inc.affected_instances[j].as_str(), instance_id.as_str()) {
                        proof {
                            assert(inc.affected_instances@[j as int]@ == instance_id@);
                        }
                        found = true;
                    }
                    j = j + 1;
                }
                proof {
                    let v = string_views(inc.affected_instances@);
                    if found {
                        let x = choose|x: int| 0 <= x < inc.affected_instances@.len() && #[trigger] inc.affected_instances@[x]@ == instance_id@;
                        assert(v[x] == instance_id@);
                    } else {
                        assert forall|x: int| 0 <= x < v.len() implies v[x] != instance_id@ by {
                            assert(v[x] == inc.affected_instances@[x]@);
                        }
                    }
                }
                if !found {
                    inc.affected_instances.push(instance_id);
                }
                self.incidents.insert(i, inc);
                Ok(())
            },
            None => Err(not_found(incident_id)),
        }
    }

    /// The incidents that are not resolved, in order.
    pub fn open_incidents(&self) -> (r: Vec<&Incident>)
        ensures
            r@.len() == unresolved(self.incidents()).len(),
            forall|k: int| 0 <= k < r@.len() ==> *#[trigger] r@[k] == unresolved(self.incidents())[k],
    {
        let mut r: Vec<&Incident> = Vec::new();
        let mut i: usize = 0;
        while i < self.incidents.len()
            invariant
                i <= self.incidents@.len(),
                r@.len() == unresolved(self.incidents@.take(i as int)).len(),
                forall|k: int| 0 <= k < r@.len() ==> *#[trigger] r@[k] == unresolved(self.incidents@.take(i as int))[k],
            decreases self.incidents@.len() - i,
        {
            proof {
                assert(self.incidents@.take(i + 1).drop_last() =~= self.incidents@.take(i as int));
            }
            if self.incidents[i].status != IncidentStatus::Resolved {
                r.push(&self.incidents[i]);
            }
            i = i + 1;
        }
        assert(self.incidents@.take(self.incidents@.len() as int) =~= self.incidents@);
        r
    }

    /// Number of incidents of severity `severity`.
    pub fn count_by_severity(&self, severity: Severity) -> (r: usize)
        ensures
            r == count_severity(self.incidents(), severity),
    {
        let mut c: usize = 0;
        let mut i: usize = 0;
        while i < self.incidents.len()
            invariant
                i <= self.incidents@.len(),
                c == count_severity(self.incidents@.take(i as int), severity),
                c <= i,
            decreases self.incidents@.len() - i,
        {
            proof {
                assert(self.incidents@.take(i + 1).drop_last() =~= self.incidents@.take(i as int));
            }
            if self.incidents[i].severity == severity {
                c = c + 1;
            }
            i = i + 1;
        }
        assert(self.incidents@.take(self.incidents@.len() as int) =~= self.incidents@);
        c
    }
}

/// The unresolved incidents of `s`, in order.
pub open spec fn unresolved(s: Seq<Incident>) -> Seq<Incident>
    decreases s.len(),
{
    if s.len() == 0 {
        Seq::empty()
    } else if s.last().status != IncidentStatus::Resolved {
        unresolved(s.drop_last()).push(s.last())
    } else {
        unresolved(s.drop_last())
    }
}

/// Number of incidents of severity `sev` in `s`.
pub open spec fn count_severity(s: Seq<Incident>, sev: Severity) -> nat
    decreases s.len(),
{
    if s.len() == 0 {
        0
    } else {
        count_severity(s.drop_last(), sev) + (if s.last().severity == sev { 1nat } else { 0nat })
    }
}

// ─── Root cause ──────────────────────────────────────────────────────────────

/// The checks of `cs` that are Critical or Degraded, in order.
pub open spec fn failing_checks(cs: Seq<HealthCheck>) -> Seq<HealthCheck>
    decreases cs.len(),
{
    if cs.len() == 0 {
        Seq::empty()
    } else if cs.last().status == CheckStatus::Critical || cs.last().status == CheckStatus::Degraded {
        failing_checks(cs.drop_last()).push(cs.last())
    } else {
        failing_checks(cs.drop_last())
    }
}

/// Some check of `fs` has a name containing `a` or `b`.
pub open spec fn some_name_has(fs: Seq<HealthCheck>, a: Seq<char>, b: Seq<char>) -> bool {
    exists|i: int| 0 <= i < fs.len() && (has_infix(#[trigger] fs[i].name@, a) || has_infix(fs[i].name@, b))
}

pub open spec fn network_failure(fs: Seq<HealthCheck>) -> bool {
    some_name_has(fs, "tailscale"@, "network"@)
}

pub open spec fn resource_failure(fs: Seq<HealthCheck>) -> bool {
    exists|i: int| 0 <= i < fs.len() && (has_infix(#[trigger] fs[i].name@, "cpu"@)
        || has_infix(fs[i].name@, "mem"@) || has_infix(fs[i].name@, "disk"@))
}

pub open spec fn service_failure(fs: Seq<HealthCheck>) -> bool {
    some_name_has(fs, "openclaw"@, "docker"@)
}

/// Root-cause category: many affected instances point at the provider;
/// otherwise the first of network, resource and service failures found.
pub open spec fn cause_category(affected: nat, fs: Seq<HealthCheck>) -> RootCauseCategory {
    if affected > 10 {
        RootCauseCategory::ProviderOutage
    } else if network_failure(fs) {
        RootCauseCategory::NetworkIssue
    } else if resource_failure(fs) {
        RootCauseCategory::ResourceExhaustion
    } else if service_failure(fs) {
        RootCauseCategory::SoftwareBug
    } else {
        RootCauseCategory::Unknown
    }
}

pub open spec fn cause_confidence(failing: nat) -> RootCauseConfidence {
    if failing > 2 {
        RootCauseConfidence::High
    } else if failing == 1 {
        RootCauseConfidence::Medium
    } else {
        RootCauseConfidence::Low
    }
}

/// Variant name of a category, as `{:?}` prints it.
pub open spec fn category_name(c: RootCauseCategory) -> Seq<char> {
    match c {
        RootCauseCategory::ProviderOutage => "ProviderOutage"@,
        RootCauseCategory::HardwareFailure => "HardwareFailure"@,
        RootCauseCategory::NetworkIssue => "NetworkIssue"@,
        RootCauseCategory::ConfigurationError => "ConfigurationError"@,
        RootCauseCategory::ResourceExhaustion => "ResourceExhaustion"@,
        RootCauseCategory::SoftwareBug => "SoftwareBug"@,
        RootCauseCategory::Unknown => "Unknown"@,
    }
}

fn category_str(c: RootCauseCategory) -> (r: &'static str)
    ensures
        r@ == category_name(c),
{
    match c {
        RootCauseCategory::ProviderOutage => "ProviderOutage",
        RootCauseCategory::HardwareFailure => "HardwareFailure",
        RootCauseCategory::NetworkIssue => "NetworkIssue",
        RootCauseCategory::ConfigurationError => "ConfigurationError",
        RootCauseCategory::ResourceExhaustion => "ResourceExhaustion",
        RootCauseCategory::SoftwareBug => "SoftwareBug",
        RootCauseCategory::Unknown => "Unknown",
    }
}

/// Evidence line of a failing check: `name: message`.
pub open spec fn evidence_line(c: HealthCheck) -> Seq<char> {
    c.name@ + ": "@ + c.message@
}

/// `r` is the root cause of an incident with `affected` instances, given
/// its health checks `cs`.
pub open spec fn root_cause_of(r: RootCause, affected: nat, cs: Seq<HealthCheck>) -> bool {
    let fs = failing_checks(cs);
    &&& r.category == cause_category(affected, fs)
    &&& r.confidence == cause_confidence(fs.len())
    &&& r.description@ == category_name(r.category) + " — "@ + decimal(fs.len()) + " failing health checks detected"@
    &&& string_views(r.evidence@) == fs.map_values(|c: HealthCheck| evidence_line(c))
}

fn root_cause_from_checks(affected: usize, health_data: &[HealthCheck]) -> (r: RootCause)
    ensures
        root_cause_of(r, affected as nat, health_data@),
{
    let ghost cs = health_data@;
    let mut count: usize = 0;
    let mut has_network = false;
    let mut has_resource = false;
    let mut has_service = false;
    let mut evidence: Vec<String> = Vec::new();
    let mut i: usize = 0;
    while i < health_data.len()
        invariant
            cs == health_data@,
            i <= cs.len(),
            count == failing_checks(cs.take(i as int)).len(),
            count <= i,
            has_network == network_failure(failing_checks(cs.take(i as int))),
            has_resource == resource_failure(failing_checks(cs.take(i as int))),
            has_service == service_failure(failing_checks(cs.take(i as int))),
            string_views(evidence@) == failing_checks(cs.take(i as int)).map_values(|c: HealthCheck| evidence_line(c)),
        decreases cs.len() - i,
    {
        let c = &health_data[i];
        let ghost before = failing_checks(cs.take(i as int));
        proof {
            assert(cs.take(i + 1).drop_last() =~= cs.take(i as int));
            assert(cs.take(i + 1).last() == *c);
        }
        let failing = match c.status {
            CheckStatus::Critical | CheckStatus::Degraded => true,
            _ => false,
        };
        if failing {
            let name = c.name.as_str();
            let net = contains_str(name, "tailscale") || contains_str(name, "network");
            let res = contains_str(name, "cpu") || contains_str(name, "mem") || contains_str(name, "disk");
            let svc = contains_str(name, "openclaw") || contains_str(name, "docker");
            let ghost after = before.push(*c);
            proof {
                assert(after.len() == before.len() + 1);
                assert(after[before.len() as int] == *c);
                assert(network_failure(after) == (network_failure(before) || net)) by {
                    if net {
                        assert(has_infix(after[before.len() as int].name@, "tailscale"@)
                            || has_infix(after[before.len() as int].name@, "network"@));
                    }
                    if network_failure(after) && !net {
                        let j = choose|j: int| 0 <= j < after.len() && (has_infix(#[trigger] after[j].name@, "tailscale"@)
                            || has_infix(after[j].name@, "network"@));
                        assert(j < before.len());
                        assert(before[j] == after[j]);
                    }
                    if network_failure(before) {
                        let j = choose|j: int| 0 <= j < before.len() && (has_infix(#[trigger] before[j].name@, "tailscale"@)
                            || has_infix(before[j].name@, "network"@));
                        assert(after[j] == before[j]);
                    }
                }
                assert(resource_failure(after) == (resource_failure(before) || res)) by {
                    if res {
                        assert(has_infix(after[before.len() as int].name@, "cpu"@)
                            || has_infix(after[before.len() as int].name@, "mem"@)
                            || has_infix(after[before.len() as int].name@, "disk"@));
                    }
                    if resource_failure(after) && !res {
                        let j = choose|j: int| 0 <= j < after.len() && (has_infix(#[trigger] after[j].name@, "cpu"@)
                            || has_infix(after[j].name@, "mem"@) || has_infix(after[j].name@, "disk"@));
                        assert(j < before.len());
                        assert(before[j] == after[j]);
                    }
                    if resource_failure(before) {
                        let j = choose|j: int| 0 <= j < before.len() && (has_infix(#[trigger] before[j].name@, "cpu"@)
                            || has_infix(before[j].name@, "mem"@) || has_infix(before[j].name@, "disk"@));
                        assert(after[j] == before[j]);
                    }
                }
                assert(service_failure(after) == (service_failure(before) || svc)) by {
                    if svc {
                        assert(has_infix(after[before.len() as int].name@, "openclaw"@)
                            || has_infix(after[before.len() as int].name@, "docker"@));
                    }
                    if service_failure(after) && !svc {
                        let j = choose|j: int| 0 <= j < after.len() && (has_infix(#[trigger] after[j].name@, "openclaw"@)
                            || has_infix(after[j].name@, "docker"@));
                        assert(j < before.len());
                        assert(before[j] == after[j]);
                    }
                    if service_failure(before) {
                        let j = choose|j: int| 0 <= j < before.len() && (has_infix(#[trigger] before[j].name@, "openclaw"@)
                            || has_infix(before[j].name@, "docker"@));
                        assert(after[j] == before[j]);
                    }
                }
            }
            has_network = has_network || net;
            has_resource = has_resource || res;
            has_service = has_service || svc;
            let mut line = c.name.clone();
            push_str(&mut line, ": ");
            push_str(&mut line, c.message.as_str());
            let ghost ev_before = evidence@;
            evidence.push(line);
            proof {
                assert(string_views(evidence@) =~= string_views(ev_before).push(evidence_line(*c)));
                assert(after.map_values(|c: HealthCheck| evidence_line(c))
                    =~= before.map_values(|c: HealthCheck| evidence_line(c)).push(evidence_line(*c)));
            }
            count = count + 1;
        }
        i = i + 1;
    }
    assert(cs.take(cs.len() as int) =~= cs);
    let category = if affected > 10 {
        RootCauseCategory::ProviderOutage
    } else if has_network {
        RootCauseCategory::NetworkIssue
    } else if has_resource {
        RootCauseCategory::ResourceExhaustion
    } else if has_service {
        RootCauseCategory::SoftwareBug
    } else {
        RootCauseCategory::Unknown
    };
    let confidence = if count > 2 {
        RootCauseConfidence::High
    } else if count == 1 {
        RootCauseConfidence::Medium
    } else {
        RootCauseConfidence::Low
    };
    let mut description = owned(category_str(category));
    push_str(&mut description, " — ");
    push_decimal(&mut description, count as u64);
    push_str(&mut description, " failing health checks detected");
    RootCause { category, description, confidence, evidence }
}

impl IncidentManager {
    /// Root cause of `incident` from its health checks: more than 10
    /// affected instances point at the provider, otherwise the failing
    /// (Critical or Degraded) checks decide by their names.
    pub fn determine_root_cause(&self, incident: &Incident, health_data: &[HealthCheck]) -> (r: RootCause)
        ensures
            root_cause_of(r, incident.affected_instances@.len(), health_data@),
    {
        root_cause_from_checks(incident.affected_instances.len(), health_data)
    }
}

// ─── Reports ─────────────────────────────────────────────────────────────────

/// Formatted report ready for the Commander.
#[derive(Debug, Clone)]
pub struct IncidentReport {
    pub incident_id: String,
    pub severity: Severity,
    pub title: String,
    pub status: IncidentStatus,
    pub summary: String,
    pub timeline_entries: Vec<TimelineEntry>,
    pub root_cause: Option<RootCause>,
    pub actions_taken: Vec<String>,
    pub recommended_next_steps: Vec<String>,
    pub generated_at: i64,
}

/// Number of timeline entries whose action mentions a failover.
pub open spec fn failover_entries(t: Seq<TimelineEntry>) -> nat
    decreases t.len(),
{
    if t.len() == 0 {
        0
    } else {
        failover_entries(t.drop_last()) + (if has_infix(t.last().action@, "failover"@) { 1nat } else { 0nat })
    }
}

/// The status sentence of a summary.
pub open spec fn status_sentence(inc: Incident, now: i64) -> Seq<char> {
    match inc.status {
        IncidentStatus::Open => "Incident is OPEN — investigating."@,
        IncidentStatus::Investigating => "Active investigation in progress."@,
        IncidentStatus::Mitigated => "Incident MITIGATED — monitoring for recurrence."@,
        IncidentStatus::Resolved => "Incident RESOLVED in "@ + decimal(incident_minutes(inc, now) as nat) + " minutes."@,
    }
}

/// Summary of an incident: affected count and place, failover actions if
/// any, and its status.
pub open spec fn summary_text(inc: Incident, now: i64) -> Seq<char> {
    let f = failover_entries(inc.timeline@);
    "Triage report: "@ + decimal(inc.affected_instances@.len()) + " instance(s) affected in "@
        + provider_label(inc.provider) + " "@ + inc.region@ + "."@
        + (if f > 0 { " "@ + decimal(f) + " failover action(s) recorded."@ } else { Seq::empty() })
        + " "@ + status_sentence(inc, now)
}

/// Recommended next steps for an incident.
pub open spec fn next_steps(inc: Incident) -> Seq<Seq<char>> {
    match inc.status {
        IncidentStatus::Open | IncidentStatus::Investigating => {
            seq!["Check provider status page for regional issues"@]
                + (if inc.severity != Severity::P1 {
                    seq!["Confirm all affected instances have ACTIVE standbys before failover"@]
                } else {
                    Seq::empty()
                })
                + (if inc.severity == Severity::P1 {
                    seq!["CRITICAL: Escalate to Commander immediately"@, "Verify zero users without an active gateway"@]
                } else {
                    Seq::empty()
                })
        },
        IncidentStatus::Mitigated => seq![
            "Monitor for 30 minutes before closing"@,
            "Verify standby instances are reprovisioning"@,
        ],
        IncidentStatus::Resolved => seq!["Schedule post-incident review"@, "Update runbook with lessons learned"@],
    }
}

fn summary_for(inc: &Incident, now: i64) -> (r: String)
    ensures
        r@ == summary_text(*inc, now),
{
    let mut f: u64 = 0;
    let mut i: usize = 0;
    while i < inc.timeline.len()
        invariant
            i <= inc.timeline@.len(),
            f == failover_entries(inc.timeline@.take(i as int)),
            f <= i,
        decreases inc.timeline@.len() - i,
    {
        proof {
            assert(inc.timeline@.take(i + 1).drop_last() =~= inc.timeline@.take(i as int));
        }
        if contains_str(inc.timeline[i].action.as_str(), "failover") {
            f = f + 1;
        }
        i = i + 1;
    }
    assert(inc.timeline@.take(inc.timeline@.len() as int) =~= inc.timeline@);
    let mut m = owned("Triage report: ");
    push_decimal(&mut m, inc.affected_instances.len() as u64);
    push_str(&mut m, " instance(s) affected in ");
    let p = inc.provider.to_string();
    push_str(&mut m, p.as_str());
    push_str(&mut m, " ");
    push_str(&mut m, inc.region.as_str());
    push_str(&mut m, ".");
    if f > 0 {
        push_str(&mut m, " ");
        push_decimal(&mut m, f);
        push_str(&mut m, " failover action(s) recorded.");
    }
    push_str(&mut m, " ");
    match inc.status {
        IncidentStatus::Open => push_str(&mut m, "Incident is OPEN — investigating."),
        IncidentStatus::Investigating => push_str(&mut m, "Active investigation in progress."),
        IncidentStatus::Mitigated => push_str(&mut m, "Incident MITIGATED — monitoring for recurrence."),
        IncidentStatus::Resolved => {
            push_str(&mut m, "Incident RESOLVED in ");
            let mins = inc.duration_mins_at(now);
            push_decimal(&mut m, mins);
            push_str(&mut m, " minutes.");
        },
    }
    m
}

fn steps_for(inc: &Incident) -> (r: Vec<String>)
    ensures
        string_views(r@) == next_steps(*inc),
{
    let mut steps: Vec<String> = Vec::new();
    match inc.status {
        IncidentStatus::Open | IncidentStatus::Investigating => {
            steps.push(owned("Check provider status page for regional issues"));
            if inc.severity != Severity::P1 {
                steps.push(owned("Confirm all affected instances have ACTIVE standbys before failover"));
            }
            if inc.severity == Severity::P1 {
                steps.push(owned("CRITICAL: Escalate to Commander immediately"));
                steps.push(owned("Verify zero users without an active gateway"));
            }
        },
        IncidentStatus::Mitigated => {
            steps.push(owned("Monitor for 30 minutes before closing"));
            steps.push(owned("Verify standby instances are reprovisioning"));
        },
        IncidentStatus::Resolved => {
            steps.push(owned("Schedule post-incident review"));
            steps.push(owned("Update runbook with lessons learned"));
        },
    }
    assert(string_views(steps@) =~= next_steps(*inc));
    steps
}

fn clone_strings(v: &Vec<String>) -> (r: Vec<String>)
    ensures
        r@ == v@,
{
    let mut r: Vec<String> = Vec::new();
    let mut i: usize = 0;
    while i < v.len()
        invariant
            i <= v@.len(),
            r@ == v@.take(i as int),
        decreases v@.len() - i,
    {
        r.push(v[i].clone());
        assert(r@ =~= v@.take(i + 1));
        i = i + 1;
    }
    assert(v@.take(v@.len() as int) =~= v@);
    r
}

fn clone_entries(v: &Vec<TimelineEntry>) -> (r: Vec<TimelineEntry>)
    ensures
        r@ == v@,
{
    let mut r: Vec<TimelineEntry> = Vec::new();
    let mut i: usize = 0;
    while i < v.len()
        invariant
            i <= v@.len(),
            r@ == v@.take(i as int),
        decreases v@.len() - i,
    {
        r.push(v[i].clone_entry());
        assert(r@ =~= v@.take(i + 1));
        i = i + 1;
    }
    assert(v@.take(v@.len() as int) =~= v@);
    r
}

/// `b` holds what `a` holds.
pub open spec fn same_cause(a: Option<RootCause>, b: Option<RootCause>) -> bool {
    match (a, b) {
        (Some(x), Some(y)) => x.category == y.category && x.description == y.description
            && x.confidence == y.confidence && x.evidence@ == y.evidence@,
        (None, None) => true,
        _ => false,
    }
}

fn clone_cause(c: &Option<RootCause>) -> (r: Option<RootCause>)
    ensures
        same_cause(*c, r),
{
    match c {
        Some(x) => Some(RootCause {
            category: x.category,
            description: x.description.clone(),
            confidence: x.confidence,
            evidence: clone_strings(&x.evidence),
        }),
        None => None,
    }
}

/// `r` is the report on `inc` generated at `now`.
pub open spec fn report_of(r: IncidentReport, inc: Incident, now: i64) -> bool {
    &&& r.incident_id == inc.id
    &&& r.severity == inc.severity
    &&& r.title == inc.title
    &&& r.status == inc.status
    &&& r.summary@ == summary_text(inc, now)
    &&& r.timeline_entries@ == inc.timeline@
    &&& same_cause(inc.root_cause, r.root_cause)
    &&& r.actions_taken@ == inc.actions_taken@
    &&& string_views(r.recommended_next_steps@) == next_steps(inc)
    &&& r.generated_at == now
}

impl IncidentManager {
    /// The report on `incident` as of `now`.
    pub fn generate_report_at(&self, incident: &Incident, now: i64) -> (r: IncidentReport)
        ensures
            report_of(r, *incident, now),
    {
        IncidentReport {
            incident_id: incident.id.clone(),
            severity: incident.severity,
            title: incident.title.clone(),
            status: incident.status,
            summary: summary_for(incident, now),
            timeline_entries: clone_entries(&incident.timeline),
            root_cause: clone_cause(&incident.root_cause),
            actions_taken: clone_strings(&incident.actions_taken),
            recommended_next_steps: steps_for(incident),
            generated_at: now,
        }
    }

    /// The report on `incident` as of the current time.
    pub fn generate_report(&self, incident: &Incident) -> (r: IncidentReport)
        ensures
            report_of(r, *incident, r.generated_at),
    {
        let now = now_millis();
        self.generate_report_at(incident, now)
    }
}

impl Default for IncidentManager {
    fn default() -> (m: Self)
        ensures
            m.incidents() == Seq::<Incident>::empty(),
    {
        IncidentManager::new()
    }
}

/// A check fails when it is critical or degraded.
pub open spec fn check_fails(c: HealthCheck) -> bool {
    c.status == CheckStatus::Critical || c.status == CheckStatus::Degraded
}

/// Some failing check of `cs` has a name containing one of `words`.
pub open spec fn failing_check_named(cs: Seq<HealthCheck>, words: Seq<Seq<char>>) -> bool {
    exists|i: int, w: int| 0 <= i < cs.len() && 0 <= w < words.len() && check_fails(#[trigger] cs[i])
        && has_infix(cs[i].name@, #[trigger] words[w])
}

proof fn lemma_failing_checks_members(cs: Seq<HealthCheck>)
    ensures
        forall|i: int| 0 <= i < cs.len() && check_fails(#[trigger] cs[i]) ==> failing_checks(cs).contains(cs[i]),
        forall|k: int| 0 <= k < failing_checks(cs).len() ==>
            check_fails(#[trigger] failing_checks(cs)[k]) && cs.contains(failing_checks(cs)[k]),
    decreases cs.len(),
{
    if cs.len() > 0 {
        let rest = cs.drop_last();
        lemma_failing_checks_members(rest);
        let fr = failing_checks(rest);
        let f = failing_checks(cs);
        assert forall|i: int| 0 <= i < cs.len() && check_fails(#[trigger] cs[i]) implies f.contains(cs[i]) by {
            if i == cs.len() - 1 {
                assert(f[f.len() - 1] == cs[i]);
            } else {
                assert(rest[i] == cs[i]);
                assert(fr.contains(rest[i]));
                let m = choose|m: int| 0 <= m < fr.len() && fr[m] == rest[i];
                assert(f[m] == cs[i]);
            }
        }
        assert forall|k: int| 0 <= k < f.len() implies check_fails(#[trigger] f[k]) && cs.contains(f[k]) by {
            if check_fails(cs.last()) && k == f.len() - 1 {
                assert(f[k] == cs.last());
                assert(cs[cs.len() - 1] == f[k]);
            } else {
                assert(f[k] == fr[k]);
                assert(rest.contains(fr[k]));
                let j = choose|j: int| 0 <= j < rest.len() && rest[j] == fr[k];
                assert(cs[j] == f[k]);
            }
        }
    }
}

proof fn lemma_named_failure(cs: Seq<HealthCheck>, words: Seq<Seq<char>>)
    ensures
        failing_check_named(cs, words) <==> exists|k: int, w: int| 0 <= k < failing_checks(cs).len()
            && 0 <= w < words.len() && has_infix((#[trigger] failing_checks(cs)[k]).name@, #[trigger] words[w]),
{
    lemma_failing_checks_members(cs);
    let f = failing_checks(cs);
    if failing_check_named(cs, words) {
        let (i, w) = choose|i: int, w: int| 0 <= i < cs.len() && 0 <= w < words.len() && check_fails(#[trigger] cs[i])
            && has_infix(cs[i].name@, #[trigger] words[w]);
        assert(f.contains(cs[i]));
        let k = choose|k: int| 0 <= k < f.len() && f[k] == cs[i];
        assert(has_infix(f[k].name@, words[w]));
    }
    if exists|k: int, w: int| 0 <= k < f.len() && 0 <= w < words.len() && has_infix((#[trigger] f[k]).name@, #[trigger] words[w]) {
        let (k, w) = choose|k: int, w: int| 0 <= k < f.len() && 0 <= w < words.len()
            && has_infix((#[trigger] f[k]).name@, #[trigger] words[w]);
        assert(cs.contains(f[k]));
        let i = choose|i: int| 0 <= i < cs.len() && cs[i] == f[k];
        assert(check_fails(cs[i]) && has_infix(cs[i].name@, words[w]));
    }
}

/// How the root cause is decided from the health checks themselves: more
/// than 10 affected instances point at the provider; otherwise a failing
/// `tailscale`/`network` check means a network issue, else a failing
/// `cpu`/`mem`/`disk` check resource exhaustion, else a failing
/// `openclaw`/`docker` check a software bug, and with none of these the
/// cause is unknown. Passing checks are never looked at.
pub proof fn lemma_root_cause_category(r: RootCause, affected: nat, cs: Seq<HealthCheck>)
    requires
        root_cause_of(r, affected, cs),
    ensures
        affected > 10 ==> r.category == RootCauseCategory::ProviderOutage,
        affected <= 10 && failing_check_named(cs, seq!["tailscale"@, "network"@])
            ==> r.category == RootCauseCategory::NetworkIssue,
        affected <= 10 && !failing_check_named(cs, seq!["tailscale"@, "network"@])
            && failing_check_named(cs, seq!["cpu"@, "mem"@, "disk"@])
            ==> r.category == RootCauseCategory::ResourceExhaustion,
        affected <= 10 && !failing_check_named(cs, seq!["tailscale"@, "network"@])
            && !failing_check_named(cs, seq!["cpu"@, "mem"@, "disk"@])
            && failing_check_named(cs, seq!["openclaw"@, "docker"@])
            ==> r.category == RootCauseCategory::SoftwareBug,
        affected <= 10 && !failing_check_named(cs, seq!["tailscale"@, "network"@])
            && !failing_check_named(cs, seq!["cpu"@, "mem"@, "disk"@])
            && !failing_check_named(cs, seq!["openclaw"@, "docker"@])
            ==> r.category == RootCauseCategory::Unknown,
{
    let f = failing_checks(cs);
    let net = seq!["tailscale"@, "network"@];
    let res = seq!["cpu"@, "mem"@, "disk"@];
    let svc = seq!["openclaw"@, "docker"@];
    lemma_named_failure(cs, net);
    lemma_named_failure(cs, res);
    lemma_named_failure(cs, svc);
    if network_failure(f) {
        let k = choose|k: int| 0 <= k < f.len() && (has_infix(#[trigger] f[k].name@, "tailscale"@)
            || has_infix(f[k].name@, "network"@));
        if has_infix(f[k].name@, "tailscale"@) { assert(has_infix(f[k].name@, net[0])); }
        else { assert(has_infix(f[k].name@, net[1])); }
    }
    if failing_check_named(cs, net) {
        let (k, w) = choose|k: int, w: int| 0 <= k < f.len() && 0 <= w < net.len()
            && has_infix((#[trigger] f[k]).name@, #[trigger] net[w]);
        assert(has_infix(f[k].name@, "tailscale"@) || has_infix(f[k].name@, "network"@));
    }
    if resource_failure(f) {
        let k = choose|k: int| 0 <= k < f.len() && (has_infix(#[trigger] f[k].name@, "cpu"@)
            || has_infix(f[k].name@, "mem"@) || has_infix(f[k].name@, "disk"@));
        if has_infix(f[k].name@, "cpu"@) { assert(has_infix(f[k].name@, res[0])); }
        else if has_infix(f[k].name@, "mem"@) { assert(has_infix(f[k].name@, res[1])); }
        else { assert(has_infix(f[k].name@, res[2])); }
    }
    if failing_check_named(cs, res) {
        let (k, w) = choose|k: int, w: int| 0 <= k < f.len() && 0 <= w < res.len()
            && has_infix((#[trigger] f[k]).name@, #[trigger] res[w]);
        assert(has_infix(f[k].name@, "cpu"@) || has_infix(f[k].name@, "mem"@) || has_infix(f[k].name@, "disk"@));
    }
    if service_failure(f) {
        let k = choose|k: int| 0 <= k < f.len() && (has_infix(#[trigger] f[k].name@, "openclaw"@)
            || has_infix(f[k].name@, "docker"@));
        if has_infix(f[k].name@, "openclaw"@) { assert(has_infix(f[k].name@, svc[0])); }
        else { assert(has_infix(f[k].name@, svc[1])); }
    }
    if failing_check_named(cs, svc) {
        let (k, w) = choose|k: int, w: int| 0 <= k < f.len() && 0 <= w < svc.len()
            && has_infix((#[trigger] f[k]).name@, #[trigger] svc[w]);
        assert(has_infix(f[k].name@, "openclaw"@) || has_infix(f[k].name@, "docker"@));
    }
}

} // verus!
