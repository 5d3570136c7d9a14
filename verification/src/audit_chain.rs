//! Append-only audit trail with SHA-256 chain hashing. Every record holds
//! the hash of the record before it (by time), and its own hash is the
//! SHA-256 hex of its canonical JSON, so a broken link or an altered
//! record shows in `verify_chain`. Times are nanoseconds since the Unix epoch, UTC;
//! parameters and result details are JSON text. Persisting the trail is
//! left to the caller, who saves a snapshot after each append.

use vstd::prelude::*;
use vstd::string::*;
use vstd::utf8::encode_utf8;
use crate::audit::{action_label, agent_label, AgentId, AuditAction, TargetType};
use crate::identity::{device_id_of, hex_encode, hex_lower, sha256, sha256_digest};
use crate::sources::{now_nanos, random_uuid};
use crate::text::{contains_str, has_infix, owned, push_str, str_equal};

verus! {

// ─── Records ─────────────────────────────────────────────────────────────────

/// Outcome of an audited action.
#[derive(Debug, Clone)]
pub struct AuditResult {
    pub success: bool,
    pub message: String,
    /// JSON text of the details, if any.
    pub details: Option<String>,
}

/// One audit record.
#[derive(Debug, Clone)]
pub struct AuditRecord {
    pub record_id: String,
    pub correlation_id: Option<String>,
    /// Nanoseconds since the Unix epoch.
    pub timestamp: i64,
    pub agent: AgentId,
    pub action: AuditAction,
    pub target_type: TargetType,
    pub target_id: String,
    /// JSON text of the action's parameters.
    pub parameters: String,
    pub result: AuditResult,
    pub operator_confirmation: Option<String>,
    /// SHA-256 hex of the previous record (empty for the first record).
    pub previous_hash: String,
    /// SHA-256 hex of this record's canonical JSON.
    pub record_hash: String,
}

/// `snake_case` name of a target type, as it is serialized.
pub open spec fn target_label(t: TargetType) -> Seq<char> {
    match t {
        TargetType::Instance => "instance"@,
        TargetType::Pair => "pair"@,
        TargetType::Account => "account"@,
        TargetType::Fleet => "fleet"@,
        TargetType::Provider => "provider"@,
        TargetType::Config => "config"@,
        TargetType::Agent => "agent"@,
    }
}

fn target_str(t: TargetType) -> (r: &'static str)
    ensures
        r@ == target_label(t),
{
    match t {
        TargetType::Instance => "instance",
        TargetType::Pair => "pair",
        TargetType::Account => "account",
        TargetType::Fleet => "fleet",
        TargetType::Provider => "provider",
        TargetType::Config => "config",
        TargetType::Agent => "agent",
    }
}

// ─── JSON pieces ─────────────────────────────────────────────────────────────

/// A lower-case hexadecimal digit of a value below 16.
pub open spec fn hex_digit_char(n: u32) -> char {
    if n < 10 { (('0' as u32) + n) as char } else { (('a' as u32) + n - 10) as char }
}

/// `\u00XX` for a control character with code `u`, in lower-case hex.
pub open spec fn control_escape(u: u32) -> Seq<char> {
    let hi = hex_digit_char(u / 16);
    let lo = hex_digit_char(u % 16);
    seq!['\\', 'u', '0', '0'].push(hi).push(lo)
}

/// How `serde_json` writes one character inside a string literal: `"`
/// and `\` behind a backslash, the short escapes `\b`, `\t`, `\n`,
/// `\f`, `\r`, the other control characters as `\u00XX` in lower-case
/// hex, and every other character as it is.
pub open spec fn json_escape_char(c: char) -> Seq<char> {
    if c == '"' {
        seq!['\\', '"']
    } else if c == '\\' {
        seq!['\\', '\\']
    } else if c == '\u{8}' {
        seq!['\\', 'b']
    } else if c == '\t' {
        seq!['\\', 't']
    } else if c == '\n' {
        seq!['\\', 'n']
    } else if c == '\u{c}' {
        seq!['\\', 'f']
    } else if c == '\r' {
        seq!['\\', 'r']
    } else if (c as u32) < 32 {
        control_escape(c as u32)
    } else {
        seq![c]
    }
}

/// The characters of a text, each escaped as in a JSON string literal.
pub open spec fn json_escaped(s: Seq<char>) -> Seq<char>
    decreases s.len(),
{
    if s.len() == 0 { Seq::empty() } else { json_escaped(s.drop_last()) + json_escape_char(s.last()) }
}

/// JSON string literal of a text, as `serde_json` writes it: quoted, with
/// each character escaped.
pub open spec fn json_quoted(s: Seq<char>) -> Seq<char> {
    seq!['"'] + json_escaped(s) + seq!['"']
}

/// JSON value of a time given in nanoseconds since the Unix epoch: its
/// RFC 3339 text, quoted.
pub uninterp spec fn timestamp_json_text(nanos: i64) -> Seq<char>;

/// `serde_json::to_string` of a string: the JSON literal, named
/// `json_quoted` of the text.
#[verifier::external_body]
pub(crate) fn json_string(s: &str) -> (r: String)
    ensures
        r@ == json_quoted(s@),
{
    serde_json::to_string(s).unwrap_or_default()
}

/// `serde_json::to_string` of `DateTime::<Utc>::from_timestamp_nanos`: the
/// quoted RFC 3339 time, named `timestamp_json_text` of the nanoseconds.
#[verifier::external_body]
fn timestamp_json(nanos: i64) -> (r: String)
    ensures
        r@ == timestamp_json_text(nanos),
{
    serde_json::to_string(&chrono::DateTime::from_timestamp_nanos(nanos)).unwrap_or_default()
}

/// The canonical JSON of a record before its own hash is set: the fields in
/// key order, compact.
pub open spec fn canonical_json(record_id: Seq<char>, timestamp: i64, agent: AgentId, action: AuditAction,
    target_type: TargetType, target_id: Seq<char>, parameters: Seq<char>, success: bool, message: Seq<char>,
    details: Option<Seq<char>>, previous_hash: Seq<char>) -> Seq<char>
{
    "{\"action\":\""@ + action_label(action) + "\",\"agent\":\""@ + agent_label(agent)
        + "\",\"parameters\":"@ + parameters
        + ",\"previous_hash\":"@ + json_quoted(previous_hash)
        + ",\"record_id\":"@ + json_quoted(record_id)
        + ",\"result\":{\"details\":"@ + (match details { Some(d) => d, None => "null"@ })
        + ",\"message\":"@ + json_quoted(message)
        + ",\"success\":"@ + (if success { "true"@ } else { "false"@ })
        + "},\"target_id\":"@ + json_quoted(target_id)
        + ",\"target_type\":\""@ + target_label(target_type)
        + "\",\"timestamp\":"@ + timestamp_json_text(timestamp) + "}"@
}

pub open spec fn opt_chars(o: Option<String>) -> Option<Seq<char>> {
    match o {
        Some(s) => Some(s@),
        None => None,
    }
}

/// The hash a record must carry: SHA-256 hex of its canonical JSON.
pub open spec fn record_hash_of(r: AuditRecord) -> Seq<char> {
    device_id_of_text(canonical_json(r.record_id@, r.timestamp, r.agent, r.action, r.target_type, r.target_id@,
        r.parameters@, r.result.success, r.result.message@, opt_chars(r.result.details), r.previous_hash@))
}

/// SHA-256 hex of the UTF-8 bytes of a text.
pub open spec fn device_id_of_text(t: Seq<char>) -> Seq<char> {
    hex_lower(sha256_digest(encode_utf8(t)))
}

/// SHA-256 hex of the canonical JSON of a record with these fields.
fn compute_record_hash(record_id: &str, timestamp: i64, agent: AgentId, action: AuditAction,
    target_type: TargetType, target_id: &str, parameters: &str, result: &AuditResult, previous_hash: &str)
    -> (h: String)
    ensures
        h@ == device_id_of_text(canonical_json(record_id@, timestamp, agent, action, target_type, target_id@,
            parameters@, result.success, result.message@, opt_chars(result.details), previous_hash@)),
{
    let mut canonical = owned("{\"action\":\"");
    let a = action.to_string();
    push_str(&mut canonical, a.as_str());
    push_str(&mut canonical, "\",\"agent\":\"");
    let g = agent.to_string();
    push_str(&mut canonical, g.as_str());
    push_str(&mut canonical, "\",\"parameters\":");
    push_str(&mut canonical, parameters);
    push_str(&mut canonical, ",\"previous_hash\":");
    let ph = json_string(previous_hash);
    push_str(&mut canonical, ph.as_str());
    push_str(&mut canonical, ",\"record_id\":");
    let rid = json_string(record_id);
    push_str(&mut canonical, rid.as_str());
    push_str(&mut canonical, ",\"result\":{\"details\":");
    match &result.details {
        Some(d) => push_str(&mut canonical, d.as_str()),
        None => push_str(&mut canonical, "null"),
    }
    push_str(&mut canonical, ",\"message\":");
    let msg = json_string(result.message.as_str());
    push_str(&mut canonical, msg.as_str());
    push_str(&mut canonical, ",\"success\":");
    push_str(&mut canonical, if result.success { "true" } else { "false" });
    push_str(&mut canonical, "},\"target_id\":");
    let tid = json_string(target_id);
    push_str(&mut canonical, tid.as_str());
    push_str(&mut canonical, ",\"target_type\":\"");
    push_str(&mut canonical, target_str(target_type));
    push_str(&mut canonical, "\",\"timestamp\":");
    let ts = timestamp_json(timestamp);
    push_str(&mut canonical, ts.as_str());
    push_str(&mut canonical, "}");
    let digest = sha256(canonical.as_str().as_bytes());
    hex_encode(digest.as_slice())
}

// ─── Time order ────────────────────────────────────────────────────────────────

/// `r` is the record `append_at` builds from these fields, with id `id` at
/// time `t`, after a record whose hash is `previous`: its own hash seals
/// its content.
pub open spec fn appended_record(r: AuditRecord, id: Seq<char>, t: i64, agent: AgentId, action: AuditAction,
    target_type: TargetType, target_id: Seq<char>, parameters: Seq<char>, result: AuditResult,
    correlation_id: Option<String>, operator_confirmation: Option<String>, previous: Seq<char>) -> bool
{
    &&& r.record_id@ == id
    &&& r.timestamp == t
    &&& r.agent == agent
    &&& r.action == action
    &&& r.target_type == target_type
    &&& r.target_id@ == target_id
    &&& r.parameters@ == parameters
    &&& r.result == result
    &&& r.correlation_id == correlation_id
    &&& r.operator_confirmation == operator_confirmation
    &&& r.previous_hash@ == previous
    &&& sealed(r)
}

/// `sorted` with `e` put after every record not later than it.
pub open spec fn insert_oldest(sorted: Seq<AuditRecord>, e: AuditRecord) -> Seq<AuditRecord>
    decreases sorted.len(),
{
    if sorted.len() == 0 {
        seq![e]
    } else if sorted.last().timestamp <= e.timestamp {
        sorted.push(e)
    } else {
        insert_oldest(sorted.drop_last(), e).push(sorted.last())
    }
}

/// `s` ordered oldest first; records with equal times keep their order.
pub open spec fn oldest_first(s: Seq<AuditRecord>) -> Seq<AuditRecord>
    decreases s.len(),
{
    if s.len() == 0 { Seq::empty() } else { insert_oldest(oldest_first(s.drop_last()), s.last()) }
}

/// Every record of `s` names the hash of the one before it (the first one
/// the empty hash) and carries its own hash.
pub open spec fn chain_intact(s: Seq<AuditRecord>) -> bool {
    forall|i: int| 0 <= i < s.len() ==> #[trigger] entry_ok(s, i)
}

/// Record `i` of `s` is linked to the one before it and carries its own
/// hash.
pub open spec fn entry_ok(s: Seq<AuditRecord>, i: int) -> bool {
    link_ok(s, i) && sealed(s[i])
}

/// `r` carries the hash of its own content.
pub open spec fn sealed(r: AuditRecord) -> bool {
    r.record_hash@ == record_hash_of(r)
}

/// Record `i` of `s` names the hash of record `i - 1`, or the empty hash.
pub open spec fn link_ok(s: Seq<AuditRecord>, i: int) -> bool {
    s[i].previous_hash@ == (if i == 0 { Seq::<char>::empty() } else { s[i - 1].record_hash@ })
}

/// The hash the next record must name: that of the last record in time
/// order, or the empty hash.
pub open spec fn head_hash(s: Seq<AuditRecord>) -> Seq<char> {
    let o = oldest_first(s);
    if o.len() == 0 { Seq::empty() } else { o.last().record_hash@ }
}

proof fn lemma_insert_oldest_len(sorted: Seq<AuditRecord>, e: AuditRecord)
    ensures
        insert_oldest(sorted, e).len() == sorted.len() + 1,
    decreases sorted.len(),
{
    if sorted.len() > 0 && sorted.last().timestamp > e.timestamp {
        lemma_insert_oldest_len(sorted.drop_last(), e);
    }
}

proof fn lemma_oldest_first_props(s: Seq<AuditRecord>)
    ensures
        oldest_first(s).len() == s.len(),
        forall|i: int| 0 <= i < oldest_first(s).len() ==> s.contains(#[trigger] oldest_first(s)[i]),
    decreases s.len(),
{
    if s.len() > 0 {
        let prev = oldest_first(s.drop_last());
        lemma_oldest_first_props(s.drop_last());
        lemma_insert_oldest_len(prev, s.last());
        lemma_insert_contains(prev, s.last());
        assert forall|i: int| 0 <= i < oldest_first(s).len() implies s.contains(#[trigger] oldest_first(s)[i]) by {
            let x = oldest_first(s)[i];
            if x == s.last() {
                assert(s[s.len() - 1] == x);
            } else {
                let j = choose|j: int| 0 <= j < prev.len() && prev[j] == x;
                assert(s.drop_last().contains(x));
                let k = choose|k: int| 0 <= k < s.drop_last().len() && s.drop_last()[k] == x;
                assert(s[k] == x);
            }
        }
    }
}

proof fn lemma_insert_contains(sorted: Seq<AuditRecord>, e: AuditRecord)
    ensures
        forall|i: int| 0 <= i < insert_oldest(sorted, e).len() ==>
            #[trigger] insert_oldest(sorted, e)[i] == e || exists|j: int| 0 <= j < sorted.len()
                && sorted[j] == insert_oldest(sorted, e)[i],
    decreases sorted.len(),
{
    lemma_insert_oldest_len(sorted, e);
    if sorted.len() > 0 && sorted.last().timestamp > e.timestamp {
        let rest = sorted.drop_last();
        lemma_insert_contains(rest, e);
        lemma_insert_oldest_len(rest, e);
        assert forall|i: int| 0 <= i < insert_oldest(sorted, e).len() implies
            #[trigger] insert_oldest(sorted, e)[i] == e || exists|j: int| 0 <= j < sorted.len()
                && sorted[j] == insert_oldest(sorted, e)[i] by {
            let r = insert_oldest(sorted, e);
            if i == r.len() - 1 {
                assert(sorted[sorted.len() - 1] == r[i]);
            } else {
                assert(r[i] == insert_oldest(rest, e)[i]);
                if r[i] != e {
                    let j = choose|j: int| 0 <= j < rest.len() && rest[j] == insert_oldest(rest, e)[i];
                    assert(sorted[j] == r[i]);
                }
            }
        }
    } else if sorted.len() > 0 {
        assert forall|i: int| 0 <= i < insert_oldest(sorted, e).len() implies
            #[trigger] insert_oldest(sorted, e)[i] == e || exists|j: int| 0 <= j < sorted.len()
                && sorted[j] == insert_oldest(sorted, e)[i] by {
            if i < sorted.len() {
                assert(sorted[i] == insert_oldest(sorted, e)[i]);
            }
        }
    }
}

/// A record not earlier than every record of `s` goes last in time order.
proof fn lemma_latest_goes_last(s: Seq<AuditRecord>, e: AuditRecord)
    requires
        forall|i: int| 0 <= i < s.len() ==> (#[trigger] s[i]).timestamp <= e.timestamp,
    ensures
        oldest_first(s.push(e)) == oldest_first(s).push(e),
{
    lemma_oldest_first_props(s);
    let o = oldest_first(s);
    assert(s.push(e).drop_last() =~= s);
    assert(s.push(e).last() == e);
    if o.len() > 0 {
        let x = o.last();
        assert(o.contains(x) ==> s.contains(x)) by {
            assert(s.contains(o[o.len() - 1]));
        }
        let k = choose|k: int| 0 <= k < s.len() && s[k] == o[o.len() - 1];
        assert(s[k].timestamp <= e.timestamp);
    }
}

// ─── The logger ──────────────────────────────────────────────────────────────

/// The audit trail and the hash the next record must name.
pub struct AuditLogger {
    records: Vec<AuditRecord>,
    last_hash: String,
}

/// Whether `r` passes the query filters: an account or instance id must
/// occur in the target id or the parameters, and agent and action must
/// match.
pub open spec fn record_matches(r: AuditRecord, account_id: Option<Seq<char>>, instance_id: Option<Seq<char>>,
    agent: Option<AgentId>, action: Option<AuditAction>) -> bool
{
    &&& (account_id matches Some(a) ==> has_infix(r.target_id@, a) || has_infix(r.parameters@, a))
    &&& (instance_id matches Some(x) ==> has_infix(r.target_id@, x) || has_infix(r.parameters@, x))
    &&& (agent matches Some(g) ==> r.agent == g)
    &&& (action matches Some(c) ==> r.action == c)
}

/// The records of `s` passing the filters, in order.
pub open spec fn matching_records(s: Seq<AuditRecord>, account_id: Option<Seq<char>>, instance_id: Option<Seq<char>>,
    agent: Option<AgentId>, action: Option<AuditAction>) -> Seq<AuditRecord>
    decreases s.len(),
{
    if s.len() == 0 {
        Seq::empty()
    } else if record_matches(s.last(), account_id, instance_id, agent, action) {
        matching_records(s.drop_last(), account_id, instance_id, agent, action).push(s.last())
    } else {
        matching_records(s.drop_last(), account_id, instance_id, agent, action)
    }
}

pub open spec fn opt_text(o: Option<&str>) -> Option<Seq<char>> {
    match o {
        Some(s) => Some(s@),
        None => None,
    }
}

impl AuditLogger {
    /// The records, in insertion order.
    pub closed spec fn records(&self) -> Seq<AuditRecord> {
        self.records@
    }

    /// The hash the next record will name as previous.
    pub closed spec fn last_hash(&self) -> Seq<char> {
        self.last_hash@
    }

    /// A trail holding the records of a snapshot; the next record will name
    /// the hash of the latest one (the last of equally late ones).
    pub fn new(snapshot: Vec<AuditRecord>) -> (l: Self)
        ensures
            l.records() == snapshot@,
            l.last_hash() == head_hash(snapshot@),
    {
        let sorted = oldest_refs(&snapshot);
        let last_hash = if sorted.len() == 0 {
            String::new()
        } else {
            sorted[sorted.len() - 1].record_hash.clone()
        };
        AuditLogger { records: snapshot, last_hash }
    }

    /// Appends a record with id `record_id` at `timestamp`, naming the
    /// current head hash as previous; returns the new record's hash, which
    /// becomes the head.
    pub fn append_at(&mut self, record_id: String, timestamp: i64, agent: AgentId, action: AuditAction,
        target_type: TargetType, target_id: &str, parameters: String, result: AuditResult,
        correlation_id: Option<String>, operator_confirmation: Option<String>) -> (h: String)
        ensures
            final(self).records().len() == old(self).records().len() + 1,
            final(self).records().drop_last() == old(self).records(),
            final(self).records().last().record_id == record_id,
            final(self).records().last().timestamp == timestamp,
            final(self).records().last().agent == agent,
            final(self).records().last().action == action,
            final(self).records().last().target_type == target_type,
            final(self).records().last().target_id@ == target_id@,
            final(self).records().last().parameters == parameters,
            final(self).records().last().result == result,
            final(self).records().last().correlation_id == correlation_id,
            final(self).records().last().operator_confirmation == operator_confirmation,
            final(self).records().last().previous_hash@ == old(self).last_hash(),
            final(self).records().last().record_hash@ == record_hash_of(final(self).records().last()),
            h@ == final(self).records().last().record_hash@,
            final(self).last_hash() == h@,
    {
        let record_hash = compute_record_hash(record_id.as_str(), timestamp, agent, action, target_type, target_id,
            parameters.as_str(), &result, self.last_hash.as_str());
        let record = AuditRecord {
            record_id,
            correlation_id,
            timestamp,
            agent,
            action,
            target_type,
            target_id: owned(target_id),
            parameters,
            result,
            operator_confirmation,
            previous_hash: self.last_hash.clone(),
            record_hash: record_hash.clone(),
        };
        self.last_hash = record_hash.clone();
        self.records.push(record);
        assert(self.records@.drop_last() =~= old(self).records@);
        record_hash
    }

    /// Appends a record now, under a fresh random id; returns its hash.
    /// The record is what `append_at` builds for some id and time.
    pub fn append(&mut self, agent: AgentId, action: AuditAction, target_type: TargetType, target_id: &str,
        parameters: String, result: AuditResult, correlation_id: Option<String>,
        operator_confirmation: Option<String>) -> (h: String)
        ensures
            exists|id: Seq<char>, t: i64| #[trigger] appended_record(final(self).records().last(), id, t, agent,
                action, target_type, target_id@, parameters@, result, correlation_id, operator_confirmation,
                old(self).last_hash()),
            final(self).records().len() == old(self).records().len() + 1,
            final(self).records().drop_last() == old(self).records(),
            final(self).records().last().previous_hash@ == old(self).last_hash(),
            final(self).records().last().record_hash@ == record_hash_of(final(self).records().last()),
            h@ == final(self).records().last().record_hash@,
            final(self).last_hash() == h@,
    {
        let id = random_uuid();
        let now = now_nanos();
        let ghost idv = id@;
        let ghost prev = self.last_hash@;
        let h = self.append_at(id, now, agent, action, target_type, target_id, parameters, result, correlation_id,
            operator_confirmation);
        assert(appended_record(self.records@.last(), idv, now, agent, action, target_type, target_id@,
            parameters@, result, correlation_id, operator_confirmation, prev));
        h
    }

    /// Whether the trail is intact: in time order, every record names the
    /// hash of the one before it, the first names the empty hash, and every
    /// record's own hash is the SHA-256 of its content.
    pub fn verify_chain(&self) -> (ok: bool)
        ensures
            ok == chain_intact(oldest_first(self.records())),
    {
        let sorted = oldest_refs(&self.records);
        let ghost o = oldest_first(self.records@);
        let mut i: usize = 0;
        while i < sorted.len()
            invariant
                o == oldest_first(self.records@),
                sorted@.len() == o.len(),
                forall|k: int| 0 <= k < o.len() ==> *#[trigger] sorted@[k] == o[k],
                i <= o.len(),
                forall|k: int| 0 <= k < i ==> #[trigger] entry_ok(o, k),
            decreases o.len() - i,
        {
            let expected_ok = if i == 0 {
                sorted[i].previous_hash.as_str().unicode_len() == 0
            } else {
                str_equal(sorted[i].previous_hash.as_str(), sorted[i - 1].record_hash.as_str())
            };
            if !expected_ok {
                proof {
                    if i == 0 {
                        assert(o[0].previous_hash@.len() != 0);
                    }
                    assert(!link_ok(o, i as int));
                    assert(!(entry_ok(o, i as int)));
                }
                return false;
            }
            proof {
                if i == 0 {
                    assert(o[0].previous_hash@ =~= Seq::<char>::empty());
                }
                assert(link_ok(o, i as int));
            }
            let rec = sorted[i];
            let h = compute_record_hash(rec.record_id.as_str(), rec.timestamp, rec.agent, rec.action,
                rec.target_type, rec.target_id.as_str(), rec.parameters.as_str(), &rec.result,
                rec.previous_hash.as_str());
            if !str_equal(h.as_str(), rec.record_hash.as_str()) {
                proof {
                    assert(!sealed(o[i as int]));
                    assert(!(entry_ok(o, i as int)));
                }
                return false;
            }
            proof {
                assert(*rec == o[i as int]);
                assert(sealed(o[i as int]));
                assert(entry_ok(o, i as int));
                assert forall|k: int| 0 <= k < i + 1 implies #[trigger] entry_ok(o, k) by {
                    if k < i {
                        assert(entry_ok(o, k));
                    }
                }
            }
            i = i + 1;
        }
        true
    }

    /// Records passing the filters, newest first, at most `limit` of them.
    pub fn query(&self, account_id: Option<&str>, instance_id: Option<&str>, agent: Option<AgentId>,
        action: Option<AuditAction>, limit: usize) -> (r: Vec<&AuditRecord>)
        ensures
            ({
                let sorted = oldest_first(matching_records(self.records(), opt_text(account_id),
                    opt_text(instance_id), agent, action)).reverse();
                let n = if sorted.len() < limit { sorted.len() } else { limit as nat };
                &&& r@.len() == n
                &&& forall|k: int| 0 <= k < n ==> *#[trigger] r@[k] == sorted[k]
            }),
    {
        let ghost s = self.records@;
        let ghost ac = opt_text(account_id);
        let ghost ins = opt_text(instance_id);
        let mut matching: Vec<&AuditRecord> = Vec::new();
        let mut i: usize = 0;
        while i < self.records.len()
            invariant
                s == self.records@,
                ac == opt_text(account_id),
                ins == opt_text(instance_id),
                i <= s.len(),
                matching@.len() == matching_records(s.take(i as int), ac, ins, agent, action).len(),
                forall|k: int| 0 <= k < matching@.len() ==>
                    *#[trigger] matching@[k] == matching_records(s.take(i as int), ac, ins, agent, action)[k],
            decreases s.len() - i,
        {
            let rec = &self.records[i];
            proof {
                assert(s.take(i + 1).drop_last() =~= s.take(i as int));
                assert(s.take(i + 1).last() == *rec);
            }
            let acc_ok = match account_id {
                Some(a) => contains_str(rec.target_id.as_str(), a) || contains_str(rec.parameters.as_str(), a),
                None => true,
            };
            let inst_ok = match instance_id {
                Some(x) => contains_str(rec.target_id.as_str(), x) || contains_str(rec.parameters.as_str(), x),
                None => true,
            };
            let agent_ok = match agent {
                Some(g) => rec.agent == g,
                None => true,
            };
            let action_ok = match action {
                Some(c) => rec.action == c,
                None => true,
            };
            if acc_ok && inst_ok && agent_ok && action_ok {
                matching.push(rec);
            }
            i = i + 1;
        }
        proof {
            assert(s.take(s.len() as int) =~= s);
        }
        let ghost m = matching_records(s, ac, ins, agent, action);
        let sorted = oldest_ref_order(matching, Ghost(m));
        let ghost o = oldest_first(m);
        let mut r: Vec<&AuditRecord> = Vec::new();
        let mut j: usize = sorted.len();
        while j > 0 && r.len() < limit
            invariant
                sorted@.len() == o.len(),
                forall|k: int| 0 <= k < o.len() ==> *#[trigger] sorted@[k] == o[k],
                j <= o.len(),
                r@.len() == o.len() - j,
                r@.len() <= limit,
                forall|k: int| 0 <= k < r@.len() ==> *#[trigger] r@[k] == o.reverse()[k],
            decreases j,
        {
            r.push(sorted[j - 1]);
            j = j - 1;
        }
        r
    }

    /// The stored records, for persisting.
    pub fn snapshot(&self) -> (r: &Vec<AuditRecord>)
        ensures
            r@ == self.records(),
    {
        &self.records
    }
}

/// The records ordered oldest first, by reference.
fn oldest_refs(records: &Vec<AuditRecord>) -> (r: Vec<&AuditRecord>)
    ensures
        r@.len() == oldest_first(records@).len(),
        forall|k: int| 0 <= k < r@.len() ==> *#[trigger] r@[k] == oldest_first(records@)[k],
{
    let mut refs: Vec<&AuditRecord> = Vec::new();
    let mut i: usize = 0;
    while i < records.len()
        invariant
            i <= records@.len(),
            refs@.len() == i,
            forall|k: int| 0 <= k < i ==> *#[trigger] refs@[k] == records@[k],
        decreases records@.len() - i,
    {
        refs.push(&records[i]);
        i = i + 1;
    }
    assert(records@.take(records@.len() as int) =~= records@);
    proof {
        assert forall|k: int| 0 <= k < refs@.len() implies *#[trigger] refs@[k] == records@.take(records@.len() as int)[k] by {}
    }
    oldest_ref_order(refs, Ghost(records@))
}

/// `refs` (standing for `s`) ordered oldest first, stably.
fn oldest_ref_order<'a>(refs: Vec<&'a AuditRecord>, Ghost(s): Ghost<Seq<AuditRecord>>) -> (r: Vec<&'a AuditRecord>)
    requires
        refs@.len() == s.len(),
        forall|k: int| 0 <= k < s.len() ==> *#[trigger] refs@[k] == s[k],
    ensures
        r@.len() == oldest_first(s).len(),
        forall|k: int| 0 <= k < r@.len() ==> *#[trigger] r@[k] == oldest_first(s)[k],
{
    let mut sorted: Vec<&AuditRecord> = Vec::new();
    let mut i: usize = 0;
    while i < refs.len()
        invariant
            refs@.len() == s.len(),
            forall|k: int| 0 <= k < s.len() ==> *#[trigger] refs@[k] == s[k],
            i <= s.len(),
            sorted@.len() == oldest_first(s.take(i as int)).len(),
            forall|k: int| 0 <= k < sorted@.len() ==> *#[trigger] sorted@[k] == oldest_first(s.take(i as int))[k],
        decreases s.len() - i,
    {
        let e = refs[i];
        let ghost before = oldest_first(s.take(i as int));
        proof {
            assert(s.take(i + 1).drop_last() =~= s.take(i as int));
            assert(s.take(i + 1).last() == *e);
        }
        let mut p: usize = sorted.len();
        while p > 0 && sorted[p - 1].timestamp > e.timestamp
            invariant
                p <= sorted@.len(),
                sorted@.len() == before.len(),
                forall|k: int| 0 <= k < sorted@.len() ==> *#[trigger] sorted@[k] == before[k],
                forall|j: int| p <= j < before.len() ==> before[j].timestamp > e.timestamp,
            decreases p,
        {
            p = p - 1;
        }
        proof {
            lemma_insert_oldest_at(before, *e, p as int);
        }
        let ghost old_sorted = sorted@;
        sorted.insert(p, e);
        proof {
            let after = oldest_first(s.take(i + 1));
            assert(after == before.insert(p as int, *e));
            assert forall|k: int| 0 <= k < sorted@.len() implies *#[trigger] sorted@[k] == after[k] by {
                if k < p {
                    assert(sorted@[k] == old_sorted[k]);
                } else if k > p {
                    assert(sorted@[k] == old_sorted[k - 1]);
                }
            }
        }
        i = i + 1;
    }
    proof {
        assert(s.take(s.len() as int) =~= s);
    }
    sorted
}

proof fn lemma_insert_oldest_at(sorted: Seq<AuditRecord>, e: AuditRecord, p: int)
    requires
        0 <= p <= sorted.len(),
        forall|j: int| p <= j < sorted.len() ==> sorted[j].timestamp > e.timestamp,
        p > 0 ==> sorted[p - 1].timestamp <= e.timestamp,
    ensures
        insert_oldest(sorted, e) == sorted.insert(p, e),
    decreases sorted.len(),
{
    if sorted.len() == 0 {
        assert(sorted.insert(p, e) =~= seq![e]);
    } else if p == sorted.len() {
        assert(sorted.insert(p, e) =~= sorted.push(e));
    } else {
        let rest = sorted.drop_last();
        lemma_insert_oldest_at(rest, e, p);
        assert(rest.insert(p, e).push(sorted.last()) =~= sorted.insert(p, e));
    }
}

/// An intact trail stays intact when a sealed record is appended at a time
/// not earlier than every record in it: `append_at` names the head hash,
/// which is the hash of the last record in time order.
pub proof fn lemma_append_keeps_chain(before: Seq<AuditRecord>, last_hash: Seq<char>, e: AuditRecord)
    requires
        chain_intact(oldest_first(before)),
        last_hash == head_hash(before),
        e.previous_hash@ == last_hash,
        sealed(e),
        forall|i: int| 0 <= i < before.len() ==> (#[trigger] before[i]).timestamp <= e.timestamp,
    ensures
        chain_intact(oldest_first(before.push(e))),
        head_hash(before.push(e)) == e.record_hash@,
{
    lemma_latest_goes_last(before, e);
    let o = oldest_first(before);
    let o2 = o.push(e);
    lemma_oldest_first_props(before);
    assert forall|i: int| 0 <= i < o2.len() implies #[trigger] entry_ok(o2, i) by {
        if i < o.len() {
            assert(entry_ok(o, i));
            assert(o2[i] == o[i]);
            if i > 0 {
                assert(o2[i - 1] == o[i - 1]);
            }
        } else {
            if o.len() > 0 {
                assert(o2[i - 1] == o.last());
            }
        }
    }
}

proof fn lemma_insert_keeps_all(sorted: Seq<AuditRecord>, e: AuditRecord)
    ensures
        insert_oldest(sorted, e).contains(e),
        forall|j: int| 0 <= j < sorted.len() ==> insert_oldest(sorted, e).contains(#[trigger] sorted[j]),
    decreases sorted.len(),
{
    lemma_insert_oldest_len(sorted, e);
    let r = insert_oldest(sorted, e);
    if sorted.len() == 0 {
        assert(r[0] == e);
    } else if sorted.last().timestamp <= e.timestamp {
        assert(r[r.len() - 1] == e);
        assert forall|j: int| 0 <= j < sorted.len() implies r.contains(#[trigger] sorted[j]) by {
            assert(r[j] == sorted[j]);
        }
    } else {
        let rest = sorted.drop_last();
        lemma_insert_keeps_all(rest, e);
        let ri = insert_oldest(rest, e);
        assert(r == ri.push(sorted.last()));
        let k = choose|k: int| 0 <= k < ri.len() && ri[k] == e;
        assert(r[k] == e);
        assert forall|j: int| 0 <= j < sorted.len() implies r.contains(#[trigger] sorted[j]) by {
            if j == sorted.len() - 1 {
                assert(r[r.len() - 1] == sorted[j]);
            } else {
                assert(rest[j] == sorted[j]);
                assert(ri.contains(rest[j]));
                let m = choose|m: int| 0 <= m < ri.len() && ri[m] == rest[j];
                assert(r[m] == sorted[j]);
            }
        }
    }
}

proof fn lemma_oldest_first_keeps_all(s: Seq<AuditRecord>)
    ensures
        forall|j: int| 0 <= j < s.len() ==> oldest_first(s).contains(#[trigger] s[j]),
    decreases s.len(),
{
    if s.len() > 0 {
        let rest = s.drop_last();
        lemma_oldest_first_keeps_all(rest);
        let o = oldest_first(rest);
        lemma_insert_keeps_all(o, s.last());
        assert forall|j: int| 0 <= j < s.len() implies oldest_first(s).contains(#[trigger] s[j]) by {
            if j < s.len() - 1 {
                assert(rest[j] == s[j]);
                assert(o.contains(rest[j]));
                let m = choose|m: int| 0 <= m < o.len() && o[m] == rest[j];
                assert(insert_oldest(o, s.last()).contains(o[m]));
            }
        }
    }
}

/// Tampering shows: a trail holding a record whose stored hash is not the
/// SHA-256 of its content is not intact, so `verify_chain` answers false.
pub proof fn lemma_altered_record_breaks_chain(s: Seq<AuditRecord>, i: int)
    requires
        0 <= i < s.len(),
        !sealed(s[i]),
    ensures
        !chain_intact(oldest_first(s)),
{
    lemma_oldest_first_keeps_all(s);
    lemma_oldest_first_props(s);
    let o = oldest_first(s);
    assert(o.contains(s[i]));
    let k = choose|k: int| 0 <= k < o.len() && o[k] == s[i];
    assert(!entry_ok(o, k));
}

} // verus!
