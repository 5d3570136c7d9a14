//! Operation counters for fleet operations and their export in the
//! Prometheus text format.

use vstd::prelude::*;
use std::sync::Arc;
use crate::text::{decimal, owned, push_decimal, push_str, str_equal};
use crate::sources::{now_millis, random_uuid, v4_hyphenated};
use std::collections::HashMap;

verus! {

// ─── Counter ─────────────────────────────────────────────────────────────────

/// A `u64` event counter that wraps around on overflow.
#[derive(Debug, Default)]
pub struct Counter {
    value: u64,
}

/// The value after one increment of `v` (wrapping at `u64::MAX`).
pub open spec fn next_count(v: u64) -> u64 {
    if v == u64::MAX { 0 } else { (v + 1) as u64 }
}

impl Counter {
    /// The counter's current value.
    pub closed spec fn count(&self) -> u64 {
        self.value
    }

    /// A counter at zero.
    pub fn zero() -> (c: Counter)
        ensures
            c.count() == 0,
    {
        Counter { value: 0 }
    }

    /// Increment the counter by one.
    pub fn inc(&mut self)
        ensures
            final(self).count() == next_count(old(self).count()),
    {
        self.value = if self.value == u64::MAX { 0 } else { self.value + 1 };
    }

    /// Read the current counter value.
    pub fn get(&self) -> (v: u64)
        ensures
            v == self.count(),
    {
        self.value
    }
}

// ─── Operations metrics ──────────────────────────────────────────────────────

/// Counters for the key fleet operations.
#[derive(Debug, Default)]
pub struct OperationsMetrics {
    /// Total VPS provision attempts (success + failure).
    pub provision_total: Counter,
    /// Total failed provision attempts.
    pub provision_errors: Counter,
    /// Total health check cycles completed.
    pub health_checks_total: Counter,
    /// Total auto-heal sequences initiated.
    pub heals_attempted: Counter,
    /// Total successful auto-heal sequences.
    pub heals_succeeded: Counter,
    /// Total failover sequences triggered.
    pub failovers_triggered: Counter,
    /// Total config push operations.
    pub config_pushes_total: Counter,
    /// Total config push failures.
    pub config_push_errors: Counter,
    /// Total cost report generations.
    pub cost_reports_total: Counter,
    /// Total incident reports generated.
    pub incident_reports_total: Counter,
    /// Total provider API calls made.
    pub provider_api_calls_total: Counter,
    /// Total provider API errors (including timeouts).
    pub provider_api_errors: Counter,
}

/// The twelve counter values, in export order.
pub open spec fn counts(m: OperationsMetrics) -> Seq<u64> {
    seq![
        m.provision_total.count(), m.provision_errors.count(), m.health_checks_total.count(),
        m.heals_attempted.count(), m.heals_succeeded.count(), m.failovers_triggered.count(),
        m.config_pushes_total.count(), m.config_push_errors.count(), m.cost_reports_total.count(),
        m.incident_reports_total.count(), m.provider_api_calls_total.count(),
        m.provider_api_errors.count(),
    ]
}

/// `new` is `old` with counter number `k` (in export order) incremented and
/// every other counter unchanged.
pub open spec fn bumped(old: OperationsMetrics, new: OperationsMetrics, k: int) -> bool {
    counts(new) == counts(old).update(k, next_count(counts(old)[k]))
}

impl OperationsMetrics {
    /// Create a new zeroed metrics instance.
    pub fn new() -> (m: Self)
        ensures
            forall|k: int| 0 <= k < 12 ==> #[trigger] counts(m)[k] == 0,
    {
        OperationsMetrics {
            provision_total: Counter::zero(),
            provision_errors: Counter::zero(),
            health_checks_total: Counter::zero(),
            heals_attempted: Counter::zero(),
            heals_succeeded: Counter::zero(),
            failovers_triggered: Counter::zero(),
            config_pushes_total: Counter::zero(),
            config_push_errors: Counter::zero(),
            cost_reports_total: Counter::zero(),
            incident_reports_total: Counter::zero(),
            provider_api_calls_total: Counter::zero(),
            provider_api_errors: Counter::zero(),
        }
    }

    /// Record a provision attempt. Call before attempting.
    pub fn record_provision_attempt(&mut self)
        ensures
            bumped(*old(self), *final(self), 0),
    {
        self.provision_total.inc();
        assert(counts(*self) =~= counts(*old(self)).update(0, next_count(counts(*old(self))[0])));
    }

    /// Record a failed provision.
    pub fn record_provision_error(&mut self)
        ensures
            bumped(*old(self), *final(self), 1),
    {
        self.provision_errors.inc();
        assert(counts(*self) =~= counts(*old(self)).update(1, next_count(counts(*old(self))[1])));
    }

    /// Record a completed health check.
    pub fn record_health_check(&mut self)
        ensures
            bumped(*old(self), *final(self), 2),
    {
        self.health_checks_total.inc();
        assert(counts(*self) =~= counts(*old(self)).update(2, next_count(counts(*old(self))[2])));
    }

    /// Record an auto-heal attempt.
    pub fn record_heal_attempt(&mut self)
        ensures
            bumped(*old(self), *final(self), 3),
    {
        self.heals_attempted.inc();
        assert(counts(*self) =~= counts(*old(self)).update(3, next_count(counts(*old(self))[3])));
    }

    /// Record a successful auto-heal.
    pub fn record_heal_success(&mut self)
        ensures
            bumped(*old(self), *final(self), 4),
    {
        self.heals_succeeded.inc();
        assert(counts(*self) =~= counts(*old(self)).update(4, next_count(counts(*old(self))[4])));
    }

    /// Record a failover trigger.
    pub fn record_failover(&mut self)
        ensures
            bumped(*old(self), *final(self), 5),
    {
        self.failovers_triggered.inc();
        assert(counts(*self) =~= counts(*old(self)).update(5, next_count(counts(*old(self))[5])));
    }

    /// Record a config push attempt.
    pub fn record_config_push(&mut self)
        ensures
            bumped(*old(self), *final(self), 6),
    {
        self.config_pushes_total.inc();
        assert(counts(*self) =~= counts(*old(self)).update(6, next_count(counts(*old(self))[6])));
    }

    /// Record a config push failure.
    pub fn record_config_push_error(&mut self)
        ensures
            bumped(*old(self), *final(self), 7),
    {
        self.config_push_errors.inc();
        assert(counts(*self) =~= counts(*old(self)).update(7, next_count(counts(*old(self))[7])));
    }

    /// Record a provider API call.
    pub fn record_provider_call(&mut self)
        ensures
            bumped(*old(self), *final(self), 10),
    {
        self.provider_api_calls_total.inc();
        assert(counts(*self) =~= counts(*old(self)).update(10, next_count(counts(*old(self))[10])));
    }

    /// Record a provider API error.
    pub fn record_provider_error(&mut self)
        ensures
            bumped(*old(self), *final(self), 11),
    {
        self.provider_api_errors.inc();
        assert(counts(*self) =~= counts(*old(self)).update(11, next_count(counts(*old(self))[11])));
    }
}

// ─── Prometheus export ───────────────────────────────────────────────────────

/// Exports [`OperationsMetrics`] in Prometheus text format.
pub struct MetricsExporter {
    metrics: Arc<OperationsMetrics>,
    /// Prefix of every metric name (default: `clawops`).
    prefix: String,
}

/// Counter names, in export order.
pub open spec fn counter_names() -> Seq<Seq<char>> {
    seq![
        "provision_total"@, "provision_errors"@, "health_checks_total"@, "heals_attempted"@,
        "heals_succeeded"@, "failovers_triggered"@, "config_pushes_total"@,
        "config_push_errors"@, "cost_reports_total"@, "incident_reports_total"@,
        "provider_api_calls_total"@, "provider_api_errors"@,
    ]
}

/// Help texts, in export order.
pub open spec fn counter_helps() -> Seq<Seq<char>> {
    seq![
        "Total VPS provision attempts"@, "Total failed VPS provision attempts"@,
        "Total health check cycles completed"@, "Total auto-heal sequences initiated"@,
        "Total successful auto-heal sequences"@, "Total failover sequences triggered"@,
        "Total config push operations"@, "Total config push failures"@,
        "Total cost report generations"@, "Total incident reports generated"@,
        "Total provider API calls made"@, "Total provider API errors including timeouts"@,
    ]
}

/// One exported counter: its `# HELP` line, its `# TYPE` line, its value
/// line, and a blank line.
pub open spec fn counter_block(prefix: Seq<char>, name: Seq<char>, help: Seq<char>, value: u64) -> Seq<char> {
    let full = prefix + "_"@ + name;
    "# HELP "@ + full + " "@ + help + "\n"@
        + "# TYPE "@ + full + " counter\n"@
        + full + " "@ + decimal(value as nat) + "\n\n"@
}

/// The blocks of the first `n` counters, concatenated.
pub open spec fn rendered(prefix: Seq<char>, values: Seq<u64>, n: int) -> Seq<char>
    decreases n,
{
    if n <= 0 {
        Seq::empty()
    } else {
        rendered(prefix, values, n - 1) + counter_block(prefix, counter_names()[n - 1], counter_helps()[n - 1], values[n - 1])
    }
}

impl MetricsExporter {
    /// The exported metrics.
    pub closed spec fn metrics(&self) -> OperationsMetrics {
        *self.metrics
    }

    /// The metric name prefix.
    pub closed spec fn prefix(&self) -> Seq<char> {
        self.prefix@
    }

    /// Create a new exporter wrapping the given metrics, with prefix
    /// `clawops`.
    pub fn new(metrics: Arc<OperationsMetrics>) -> (e: Self)
        ensures
            e.metrics() == *metrics,
            e.prefix() == "clawops"@,
    {
        MetricsExporter { metrics, prefix: owned("clawops") }
    }

    /// Create with a custom metric name prefix.
    pub fn with_prefix(metrics: Arc<OperationsMetrics>, prefix: &str) -> (e: Self)
        ensures
            e.metrics() == *metrics,
            e.prefix() == prefix@,
    {
        MetricsExporter { metrics, prefix: owned(prefix) }
    }

    /// Render all metrics as a Prometheus text format string: for each
    /// counter a `# HELP`, a `# TYPE` and a value line.
    pub fn render(&self) -> (out: String)
        ensures
            out@ == rendered(self.prefix(), counts(self.metrics()), 12),
    {
        let m: &OperationsMetrics = &self.metrics;
        let p: &str = self.prefix.as_str();
        let ghost vals = counts(*m);
        let mut out = String::new();
        self.write_counter(&mut out, p, "provision_total", "Total VPS provision attempts", m.provision_total.get());
        assert(out@ =~= rendered(p@, vals, 1)) by { assert(rendered(p@, vals, 0) =~= Seq::<char>::empty()); }
        self.write_counter(&mut out, p, "provision_errors", "Total failed VPS provision attempts", m.provision_errors.get());
        assert(out@ =~= rendered(p@, vals, 2));
        self.write_counter(&mut out, p, "health_checks_total", "Total health check cycles completed", m.health_checks_total.get());
        assert(out@ =~= rendered(p@, vals, 3));
        self.write_counter(&mut out, p, "heals_attempted", "Total auto-heal sequences initiated", m.heals_attempted.get());
        assert(out@ =~= rendered(p@, vals, 4));
        self.write_counter(&mut out, p, "heals_succeeded", "Total successful auto-heal sequences", m.heals_succeeded.get());
        assert(out@ =~= rendered(p@, vals, 5));
        self.write_counter(&mut out, p, "failovers_triggered", "Total failover sequences triggered", m.failovers_triggered.get());
        assert(out@ =~= rendered(p@, vals, 6));
        self.write_counter(&mut out, p, "config_pushes_total", "Total config push operations", m.config_pushes_total.get());
        assert(out@ =~= rendered(p@, vals, 7));
        self.write_counter(&mut out, p, "config_push_errors", "Total config push failures", m.config_push_errors.get());
        assert(out@ =~= rendered(p@, vals, 8));
        self.write_counter(&mut out, p, "cost_reports_total", "Total cost report generations", m.cost_reports_total.get());
        assert(out@ =~= rendered(p@, vals, 9));
        self.write_counter(&mut out, p, "incident_reports_total", "Total incident reports generated", m.incident_reports_total.get());
        assert(out@ =~= rendered(p@, vals, 10));
        self.write_counter(&mut out, p, "provider_api_calls_total", "Total provider API calls made", m.provider_api_calls_total.get());
        assert(out@ =~= rendered(p@, vals, 11));
        self.write_counter(&mut out, p, "provider_api_errors", "Total provider API errors including timeouts", m.provider_api_errors.get());
        assert(out@ =~= rendered(p@, vals, 12));
        out
    }

    /// Appends one counter in the text exposition format: its help and
    /// type lines, then its sample line and a blank line.
    pub fn write_counter(&self, out: &mut String, prefix: &str, name: &str, help: &str, value: u64)
        ensures
            final(out)@ == old(out)@ + counter_block(prefix@, name@, help@, value),
    {
        push_str(out, "# HELP ");
        push_str(out, prefix);
        push_str(out, "_");
        push_str(out, name);
        push_str(out, " ");
        push_str(out, help);
        push_str(out, "\n");
        push_str(out, "# TYPE ");
        push_str(out, prefix);
        push_str(out, "_");
        push_str(out, name);
        push_str(out, " counter\n");
        push_str(out, prefix);
        push_str(out, "_");
        push_str(out, name);
        push_str(out, " ");
        push_decimal(out, value);
        push_str(out, "\n\n");
        let ghost full = prefix@ + "_"@ + name@;
        assert(final(out)@ =~= old(out)@ + counter_block(prefix@, name@, help@, value));
    }
}

// ─── Operation log vocabulary ────────────────────────────────────────────────

/// Category of fleet operation being logged.
#[derive(Debug, Clone, Copy, PartialEq, Eq, Structural)]
pub enum OperationKind {
    /// VPS instance provisioning.
    Provision,
    /// VPS teardown (intentional).
    Teardown,
    /// Auto-heal sequence.
    AutoHeal,
    /// Failover sequence.
    Failover,
    /// Configuration push.
    ConfigPush,
    /// Fleet health check sweep.
    HealthCheck,
    /// Cost analysis.
    CostAnalysis,
    /// Incident report generation.
    IncidentReport,
    /// Operator action (manual override).
    OperatorAction,
}

/// Outcome of a logged operation.
#[derive(Debug, Clone, Copy, PartialEq, Eq, Structural)]
pub enum OperationOutcome {
    /// Completed successfully.
    Success,
    /// Failed with an error.
    Failure,
    /// Blocked by a safety constraint.
    BlockedBySafety,
    /// Requires operator confirmation.
    PendingConfirmation,
}

// ─── Operation log ───────────────────────────────────────────────────────────

/// One logged fleet operation. Times are milliseconds since the Unix epoch.
#[derive(Debug, Clone)]
pub struct FleetAuditEntry {
    /// Unique entry ID.
    pub id: String,
    /// When the operation occurred.
    pub timestamp: i64,
    /// Agent or system that initiated the operation.
    pub actor: String,
    /// Operation category.
    pub kind: OperationKind,
    /// Target resource (instance ID, config name, etc.).
    pub resource_id: Option<String>,
    /// Operation outcome.
    pub outcome: OperationOutcome,
    /// Duration of the operation in milliseconds.
    pub duration_ms: Option<u64>,
    /// Additional structured details (provider, region, tier, etc.).
    pub details: HashMap<String, String>,
}

/// `b` holds what `a` holds.
pub open spec fn same_entry(a: FleetAuditEntry, b: FleetAuditEntry) -> bool {
    &&& a.id == b.id
    &&& a.timestamp == b.timestamp
    &&& a.actor == b.actor
    &&& a.kind == b.kind
    &&& a.resource_id == b.resource_id
    &&& a.outcome == b.outcome
    &&& a.duration_ms == b.duration_ms
    &&& a.details@ == b.details@
}

impl FleetAuditEntry {
    pub fn clone_entry(&self) -> (r: FleetAuditEntry)
        ensures
            same_entry(*self, r),
    {
        FleetAuditEntry {
            id: self.id.clone(),
            timestamp: self.timestamp,
            actor: self.actor.clone(),
            kind: self.kind,
            resource_id: match &self.resource_id {
                Some(r) => Some(r.clone()),
                None => None,
            },
            outcome: self.outcome,
            duration_ms: self.duration_ms,
            details: self.details.clone(),
        }
    }
}

/// Whether `e` passes the optional kind and actor filters.
pub open spec fn entry_matches(e: FleetAuditEntry, kind: Option<OperationKind>, actor: Option<Seq<char>>) -> bool {
    &&& (kind matches Some(k) ==> e.kind == k)
    &&& (actor matches Some(a) ==> e.actor@ == a)
}

/// The entries of `s` passing the filters, newest (last) first, at most
/// `limit` of them.
pub open spec fn newest_matching(s: Seq<FleetAuditEntry>, kind: Option<OperationKind>, actor: Option<Seq<char>>,
    limit: nat) -> Seq<FleetAuditEntry>
    decreases s.len(),
{
    if s.len() == 0 || limit == 0 {
        Seq::empty()
    } else if entry_matches(s.last(), kind, actor) {
        seq![s.last()] + newest_matching(s.drop_last(), kind, actor, (limit - 1) as nat)
    } else {
        newest_matching(s.drop_last(), kind, actor, limit)
    }
}

/// The last `max` entries of `s` (all of them when there are fewer).
pub open spec fn keep_last(s: Seq<FleetAuditEntry>, max: nat) -> Seq<FleetAuditEntry> {
    if s.len() > max { s.subrange(s.len() - max, s.len() as int) } else { s }
}

pub open spec fn opt_str_chars(o: Option<&str>) -> Option<Seq<char>> {
    match o {
        Some(s) => Some(s@),
        None => None,
    }
}

/// `e` is the entry logged with these values.
pub open spec fn logged_as(e: FleetAuditEntry, id: Seq<char>, now: i64, actor: Seq<char>, kind: OperationKind,
    resource_id: Option<Seq<char>>, outcome: OperationOutcome, duration_ms: Option<u64>,
    details: Map<String, String>) -> bool
{
    &&& e.id@ == id
    &&& e.timestamp == now
    &&& e.actor@ == actor
    &&& e.kind == kind
    &&& (match e.resource_id {
        Some(r) => resource_id == Some(r@),
        None => resource_id is None,
    })
    &&& e.outcome == outcome
    &&& e.duration_ms == duration_ms
    &&& e.details@ == details
}

/// Structured log of fleet operations, keeping the most recent
/// `max_entries` in memory.
pub struct AuditLogger {
    entries: Vec<FleetAuditEntry>,
    max_entries: usize,
}

impl AuditLogger {
    /// The entries kept, oldest first.
    pub closed spec fn entries(&self) -> Seq<FleetAuditEntry> {
        self.entries@
    }

    /// How many entries are kept at most.
    pub closed spec fn capacity(&self) -> nat {
        self.max_entries as nat
    }

    /// A logger keeping up to `max_entries` entries.
    pub fn new(max_entries: usize) -> (r: Self)
        ensures
            r.entries() == Seq::<FleetAuditEntry>::empty(),
            r.capacity() == max_entries,
    {
        AuditLogger { entries: Vec::new(), max_entries }
    }

    /// A logger keeping up to 10,000 entries.
    pub fn default_capacity() -> (r: Self)
        ensures
            r.entries() == Seq::<FleetAuditEntry>::empty(),
            r.capacity() == 10_000,
    {
        Self::new(10_000)
    }

    /// Logs an operation under `id` at `now`; the oldest entries beyond the
    /// capacity are dropped.
    pub fn log_at(&mut self, id: String, now: i64, actor: &str, kind: OperationKind, resource_id: Option<&str>,
        outcome: OperationOutcome, duration_ms: Option<u64>, details: HashMap<String, String>)
        ensures
            final(self).capacity() == old(self).capacity(),
            final(self).entries().len() == (if old(self).entries().len() + 1 > old(self).capacity() {
                old(self).capacity()
            } else {
                old(self).entries().len() + 1
            }),
            old(self).capacity() > 0 ==> final(self).entries().drop_last()
                == keep_last(old(self).entries(), (old(self).capacity() - 1) as nat),
            old(self).capacity() > 0 ==> logged_as(final(self).entries().last(), id@, now, actor@, kind,
                opt_str_chars(resource_id), outcome, duration_ms, details@),
    {
        let entry = FleetAuditEntry {
            id,
            timestamp: now,
            actor: owned(actor),
            kind,
            resource_id: match resource_id {
                Some(r) => Some(owned(r)),
                None => None,
            },
            outcome,
            duration_ms,
            details,
        };
        let ghost pushed = self.entries@.push(entry);
        self.entries.push(entry);
        if self.entries.len() > self.max_entries {
            let excess = self.entries.len() - self.max_entries;
            let kept = self.entries.split_off(excess);
            self.entries = kept;
        }
        proof {
            if self.max_entries > 0 {
                assert(self.entries@.last() == entry);
                assert(self.entries@.drop_last() =~= keep_last(old(self).entries@, (self.max_entries - 1) as nat));
            }
        }
    }

    /// Logs an operation now, under a fresh random id.
    pub fn log(&mut self, actor: &str, kind: OperationKind, resource_id: Option<&str>,
        outcome: OperationOutcome, duration_ms: Option<u64>, details: HashMap<String, String>)
        ensures
            final(self).capacity() == old(self).capacity(),
            final(self).entries().len() == (if old(self).entries().len() + 1 > old(self).capacity() {
                old(self).capacity()
            } else {
                old(self).entries().len() + 1
            }),
            old(self).capacity() > 0 ==> final(self).entries().drop_last()
                == keep_last(old(self).entries(), (old(self).capacity() - 1) as nat),
            old(self).capacity() > 0 ==> logged_as(final(self).entries().last(), final(self).entries().last().id@,
                final(self).entries().last().timestamp, actor@, kind, opt_str_chars(resource_id), outcome,
                duration_ms, details@),
            old(self).capacity() > 0 ==> v4_hyphenated(final(self).entries().last().id@),
    {
        let id = random_uuid();
        let now = now_millis();
        self.log_at(id, now, actor, kind, resource_id, outcome, duration_ms, details);
    }

    /// Entries passing the optional kind and actor filters, newest first,
    /// at most `limit` of them.
    pub fn query(&self, kind: Option<OperationKind>, actor: Option<&str>, limit: usize) -> (r: Vec<FleetAuditEntry>)
        ensures
            r@.len() == newest_matching(self.entries(), kind, opt_str_chars(actor), limit as nat).len(),
            forall|k: int| 0 <= k < r@.len() ==>
                same_entry(newest_matching(self.entries(), kind, opt_str_chars(actor), limit as nat)[k], #[trigger] r@[k]),
    {
        let ghost s = self.entries@;
        let ghost a = opt_str_chars(actor);
        let ghost mut picked: Seq<FleetAuditEntry> = Seq::empty();
        let mut r: Vec<FleetAuditEntry> = Vec::new();
        let mut i: usize = self.entries.len();
        assert(s.take(s.len() as int) =~= s);
        while i > 0 && r.len() < limit
            invariant
                s == self.entries@,
                a == opt_str_chars(actor),
                i <= s.len(),
                r@.len() == picked.len(),
                picked.len() <= limit,
                newest_matching(s, kind, a, limit as nat)
                    == picked + newest_matching(s.take(i as int), kind, a, (limit - picked.len()) as nat),
                forall|k: int| 0 <= k < r@.len() ==> same_entry(picked[k], #[trigger] r@[k]),
            decreases i,
        {
            let e = &self.entries[i - 1];
            let ghost t = s.take(i as int);
            let ghost rest = (limit - picked.len()) as nat;
            proof {
                assert(t.drop_last() =~= s.take(i - 1));
                assert(t.last() == *e);
            }
            let kind_ok = match kind {
                Some(k) => e.kind == k,
                None => true,
            };
            let actor_ok = match actor {
                Some(x) => str_equal(e.actor.as_str(), x),
                None => true,
            };
            if kind_ok && actor_ok {
                let c = e.clone_entry();
                proof {
                    assert(entry_matches(*e, kind, a));
                    let tail = newest_matching(s.take(i - 1), kind, a, (rest - 1) as nat);
                    assert(newest_matching(t, kind, a, rest) == seq![*e] + tail);
                    assert(picked + (seq![*e] + tail) =~= picked.push(*e) + tail);
                    picked = picked.push(*e);
                }
                r.push(c);
            } else {
                proof {
                    assert(!entry_matches(*e, kind, a));
                }
            }
            i = i - 1;
        }
        proof {
            let rest = (limit - picked.len()) as nat;
            assert(newest_matching(s.take(i as int), kind, a, rest) =~= Seq::<FleetAuditEntry>::empty());
            assert(picked + Seq::<FleetAuditEntry>::empty() =~= picked);
        }
        r
    }

    /// Number of entries kept.
    pub fn count(&self) -> (n: usize)
        ensures
            n == self.entries().len(),
    {
        self.entries.len()
    }
}

} // verus!
