//! Node-side record stores: VPS instance records keyed by instance id and
//! an event log keyed by event id, plus the location of each store's JSON
//! snapshot file. Reading and writing the files is done outside the
//! library; the stores here hold and update the records.

use vstd::prelude::*;
use std::path::PathBuf;
use crate::text::{owned, push_str, str_equal};

verus! {

#[verifier::external_type_specification]
#[verifier::external_body]
pub struct ExPathBuf(PathBuf);

/// Text of the path `Path::join` builds from `base` and `part` on the
/// target platform.
pub uninterp spec fn joined_path(base: Seq<char>, part: Seq<char>) -> Seq<char>;

/// `Path::new(base).join(part)`, as text. Both inputs are UTF-8, so the
/// joined path is too and reads back whole.
#[verifier::external_body]
fn path_join(base: &str, part: &str) -> (r: String)
    ensures
        r@ == joined_path(base@, part@),
{
    std::path::Path::new(base).join(part).to_string_lossy().into_owned()
}

/// Where one domain of node state is snapshotted as JSON:
/// `{state_path}/state/{domain}.json`.
pub struct JsonStore {
    path: String,
}

impl JsonStore {
    /// The snapshot file this store was made with, as text.
    pub closed spec fn file_text(&self) -> Seq<char> {
        self.path@
    }

    /// Create a new store for the given domain under `state_path`.
    pub fn new(state_path: &str, domain: &str) -> (s: JsonStore)
        ensures
            s.file_text() == joined_path(joined_path(state_path@, "state"@), domain@ + ".json"@),
    {
        let dir = path_join(state_path, "state");
        let mut name = owned(domain);
        push_str(&mut name, ".json");
        JsonStore { path: path_join(dir.as_str(), name.as_str()) }
    }

    /// The snapshot file of this store.
    pub fn path(&self) -> (r: &str)
        ensures
            r@ == self.file_text(),
    {
        self.path.as_str()
    }
}

// ─── VPS instance records ────────────────────────────────────────────────────

/// A provisioned VPS instance as the node records it.
#[derive(Debug, Clone)]
pub struct VpsInstanceRecord {
    pub instance_id: String,
    pub provider: String,
    pub region: String,
    pub tier: String,
    pub role: String,
    pub state: String,
    pub ip_public: Option<String>,
    pub ip_tailscale: Option<String>,
    pub provider_instance_id: Option<String>,
    pub account_id: String,
    pub provisioned_at: String,
}

/// Whether no two records of `s` share an instance id.
pub open spec fn unique_instance_ids(s: Seq<VpsInstanceRecord>) -> bool {
    forall|i: int, j: int| 0 <= i < s.len() && 0 <= j < s.len() && i != j
        ==> #[trigger] s[i].instance_id@ != #[trigger] s[j].instance_id@
}

/// Index of the record with instance id `id`, if any.
pub open spec fn instance_index(s: Seq<VpsInstanceRecord>, id: Seq<char>) -> Option<int> {
    if exists|i: int| 0 <= i < s.len() && #[trigger] s[i].instance_id@ == id {
        Some(choose|i: int| 0 <= i < s.len() && #[trigger] s[i].instance_id@ == id)
    } else {
        None
    }
}

/// VPS instance records, at most one per instance id, in insertion order.
pub struct VpsInstanceStore {
    records: Vec<VpsInstanceRecord>,
}

impl VpsInstanceStore {
    #[verifier::type_invariant]
    pub(crate) open spec fn unique(&self) -> bool {
        unique_instance_ids(self.records())
    }

    /// The records held.
    pub closed spec fn records(&self) -> Seq<VpsInstanceRecord> {
        self.records@
    }

    /// A store holding the records of a snapshot; of several records with
    /// the same instance id the last one is kept.
    pub fn new(snapshot: Vec<VpsInstanceRecord>) -> (s: Self)
        ensures
            forall|i: int| 0 <= i < snapshot@.len() ==>
                #[trigger] instance_index(s.records(), snapshot@[i].instance_id@) is Some,
            forall|k: int| 0 <= k < s.records().len() ==> snapshot@.contains(#[trigger] s.records()[k]),
            unique_instance_ids(s.records()),
    {
        let mut s = VpsInstanceStore { records: Vec::new() };
        let mut i: usize = 0;
        while i < snapshot.len()
            invariant
                i <= snapshot.len(),
                forall|j: int| 0 <= j < i ==> #[trigger] instance_index(s.records(), snapshot@[j].instance_id@) is Some,
                forall|k: int| 0 <= k < s.records().len() ==> snapshot@.contains(#[trigger] s.records()[k]),
            decreases snapshot.len() - i,
        {
            let ghost before = s.records();
            s.upsert(snapshot[i].clone_record());
            proof {
                assert forall|j: int| 0 <= j <= i implies #[trigger] instance_index(s.records(), snapshot@[j].instance_id@) is Some by {
                    lemma_upsert_keeps(before, s.records(), snapshot@[i as int], snapshot@[j].instance_id@);
                }
                assert forall|k: int| 0 <= k < s.records().len() implies snapshot@.contains(#[trigger] s.records()[k]) by {
                    lemma_upsert_keeps(before, s.records(), snapshot@[i as int], snapshot@[i as int].instance_id@);
                    if s.records()[k] != snapshot@[i as int] {
                        let kk = choose|kk: int| 0 <= kk < before.len() && before[kk] == s.records()[k];
                        assert(snapshot@.contains(before[kk]));
                    } else {
                        assert(snapshot@[i as int] == s.records()[k]);
                    }
                }
            }
            i = i + 1;
        }
        proof { use_type_invariant(&s); }
        s
    }

    /// Insert a record, replacing the record with the same instance id.
    pub fn upsert(&mut self, record: VpsInstanceRecord)
        ensures
            match instance_index(old(self).records(), record.instance_id@) {
                Some(k) => final(self).records() == old(self).records().update(k, record),
                None => final(self).records() == old(self).records().push(record),
            },
            unique_instance_ids(final(self).records()),
    {
        proof { use_type_invariant(&*self); }
        let ghost id = record.instance_id@;
        let n = self.records.len();
        let mut i: usize = 0;
        while i < n
            invariant
                n == self.records@.len(),
                unique_instance_ids(self.records@),
                self.records@ == old(self).records@,
                id == record.instance_id@,
                i <= n,
                forall|j: int| 0 <= j < i ==> #[trigger] self.records@[j].instance_id@ != id,
            decreases n - i,
        {
            if str_equal(self.records[i].instance_id.as_str(), record.instance_id.as_str()) {
                proof {
                    let k = instance_index(self.records@, id)->0;
                    assert(self.records@[i as int].instance_id@ == id);
                    assert(k == i) by {
                        if k != i {
                            assert(self.records@[k].instance_id@ == id);
                        }
                    }
                    let updated = self.records@.update(i as int, record);
                    assert forall|a: int, b: int| 0 <= a < updated.len() && 0 <= b < updated.len() && a != b
                        implies #[trigger] updated[a].instance_id@ != #[trigger] updated[b].instance_id@ by {
                        if a == i {
                            assert(self.records@[b].instance_id@ != self.records@[i as int].instance_id@);
                        } else if b == i {
                            assert(self.records@[a].instance_id@ != self.records@[i as int].instance_id@);
                        }
                    }
                }
                let mut recs: Vec<VpsInstanceRecord> = Vec::new();
                std::mem::swap(&mut recs, &mut self.records);
                recs.set(i, record);
                self.records = recs;
                proof { use_type_invariant(&*self); }
                return;
            }
            i = i + 1;
        }
        proof {
            assert(instance_index(self.records@, id) is None) by {
                if exists|j: int| 0 <= j < self.records@.len() && #[trigger] self.records@[j].instance_id@ == id {
                    let j = choose|j: int| 0 <= j < self.records@.len() && #[trigger] self.records@[j].instance_id@ == id;
                    assert(self.records@[j].instance_id@ != id);
                }
            }
            let pushed = self.records@.push(record);
            assert forall|a: int, b: int| 0 <= a < pushed.len() && 0 <= b < pushed.len() && a != b
                implies #[trigger] pushed[a].instance_id@ != #[trigger] pushed[b].instance_id@ by {
                if a == n {
                    assert(self.records@[b].instance_id@ != id);
                } else if b == n {
                    assert(self.records@[a].instance_id@ != id);
                }
            }
        }
        let mut recs: Vec<VpsInstanceRecord> = Vec::new();
        std::mem::swap(&mut recs, &mut self.records);
        recs.push(record);
        self.records = recs;
        proof { use_type_invariant(&*self); }
    }

    /// The record with instance id `id`, if any.
    pub fn get(&self, id: &str) -> (r: Option<&VpsInstanceRecord>)
        ensures
            match instance_index(self.records(), id@) {
                Some(k) => r == Some(&self.records()[k]),
                None => r is None,
            },
    {
        proof { use_type_invariant(self); }
        let n = self.records.len();
        let mut i: usize = 0;
        while i < n
            invariant
                n == self.records@.len(),
                unique_instance_ids(self.records@),
                i <= n,
                forall|j: int| 0 <= j < i ==> #[trigger] self.records@[j].instance_id@ != id@,
            decreases n - i,
        {
            if str_equal(self.records[i].instance_id.as_str(), id) {
                proof {
                    let k = instance_index(self.records@, id@)->0;
                    assert(self.records@[i as int].instance_id@ == id@);
                    if k != i {
                        assert(self.records@[k].instance_id@ == id@);
                    }
                }
                return Some(&self.records[i]);
            }
            i = i + 1;
        }
        proof {
            if exists|j: int| 0 <= j < self.records@.len() && #[trigger] self.records@[j].instance_id@ == id@ {
                let j = choose|j: int| 0 <= j < self.records@.len() && #[trigger] self.records@[j].instance_id@ == id@;
                assert(self.records@[j].instance_id@ != id@);
            }
        }
        None
    }

    /// All records, in insertion order.
    pub fn list(&self) -> (r: Vec<&VpsInstanceRecord>)
        ensures
            r@.len() == self.records().len(),
            forall|k: int| 0 <= k < r@.len() ==> *#[trigger] r@[k] == self.records()[k],
    {
        let mut r: Vec<&VpsInstanceRecord> = Vec::new();
        let mut i: usize = 0;
        while i < self.records.len()
            invariant
                i <= self.records@.len(),
                r@.len() == i,
                forall|k: int| 0 <= k < i ==> *#[trigger] r@[k] == self.records@[k],
            decreases self.records@.len() - i,
        {
            r.push(&self.records[i]);
            i = i + 1;
        }
        r
    }

    /// Remove the record with instance id `id`, if any. Afterwards no
    /// record has that id and every other id finds what it found before.
    pub fn remove(&mut self, id: &str)
        ensures
            final(self).records() == removed_from(old(self).records(), id@),
            instance_under(final(self).records(), id@) is None,
            forall|other: Seq<char>| other != id@ ==> #[trigger] instance_under(final(self).records(), other)
                == instance_under(old(self).records(), other),
            unique_instance_ids(final(self).records()),
    {
        proof { use_type_invariant(&*self); }
        let n = self.records.len();
        let mut i: usize = 0;
        while i < n
            invariant
                n == self.records@.len(),
                unique_instance_ids(self.records@),
                self.records@ == old(self).records@,
                i <= n,
                forall|j: int| 0 <= j < i ==> #[trigger] self.records@[j].instance_id@ != id@,
            decreases n - i,
        {
            if str_equal(self.records[i].instance_id.as_str(), id) {
                proof {
                    let k = instance_index(self.records@, id@)->0;
                    assert(self.records@[i as int].instance_id@ == id@);
                    if k != i {
                        assert(self.records@[k].instance_id@ == id@);
                    }
                    let removed = self.records@.remove(i as int);
                    assert forall|a: int, b: int| 0 <= a < removed.len() && 0 <= b < removed.len() && a != b
                        implies #[trigger] removed[a].instance_id@ != #[trigger] removed[b].instance_id@ by {
                        let a2 = if a < i { a } else { a + 1 };
                        let b2 = if b < i { b } else { b + 1 };
                        assert(removed[a] == self.records@[a2]);
                        assert(removed[b] == self.records@[b2]);
                    }
                }
                let mut recs: Vec<VpsInstanceRecord> = Vec::new();
                std::mem::swap(&mut recs, &mut self.records);
                recs.remove(i);
                self.records = recs;
                proof {
                    use_type_invariant(&*self);
                    lemma_get_after_remove(old(self).records@, self.records@, id@);
                    assert forall|other: Seq<char>| other != id@ implies #[trigger] instance_under(self.records@, other)
                        == instance_under(old(self).records@, other) by {
                        lemma_remove_keeps_others(old(self).records@, id@, other);
                    }
                }
                return;
            }
            i = i + 1;
        }
        proof {
            if exists|j: int| 0 <= j < self.records@.len() && #[trigger] self.records@[j].instance_id@ == id@ {
                let j = choose|j: int| 0 <= j < self.records@.len() && #[trigger] self.records@[j].instance_id@ == id@;
                assert(self.records@[j].instance_id@ != id@);
            }
        }
    }

    /// The records as they are to be written to the snapshot file.
    pub fn snapshot(&self) -> (r: Vec<VpsInstanceRecord>)
        ensures
            r@ == self.records(),
    {
        let mut r: Vec<VpsInstanceRecord> = Vec::new();
        let mut i: usize = 0;
        while i < self.records.len()
            invariant
                i <= self.records@.len(),
                r@ == self.records@.take(i as int),
            decreases self.records@.len() - i,
        {
            r.push(self.records[i].clone_record());
            assert(r@ =~= self.records@.take(i + 1));
            i = i + 1;
        }
        assert(self.records@.take(self.records@.len() as int) =~= self.records@);
        r
    }
}

/// Copies of optional strings.
fn clone_opt(s: &Option<String>) -> (r: Option<String>)
    ensures
        r == *s,
{
    match s {
        Some(v) => Some(v.clone()),
        None => None,
    }
}

impl VpsInstanceRecord {
    /// An equal copy of the record.
    pub fn clone_record(&self) -> (r: VpsInstanceRecord)
        ensures
            r == *self,
    {
        VpsInstanceRecord {
            instance_id: self.instance_id.clone(),
            provider: self.provider.clone(),
            region: self.region.clone(),
            tier: self.tier.clone(),
            role: self.role.clone(),
            state: self.state.clone(),
            ip_public: clone_opt(&self.ip_public),
            ip_tailscale: clone_opt(&self.ip_tailscale),
            provider_instance_id: clone_opt(&self.provider_instance_id),
            account_id: self.account_id.clone(),
            provisioned_at: self.provisioned_at.clone(),
        }
    }
}

/// An upsert keeps every id present and adds the upserted one; each record
/// afterwards is the upserted one or was there before.
proof fn lemma_upsert_keeps(before: Seq<VpsInstanceRecord>, after: Seq<VpsInstanceRecord>, record: VpsInstanceRecord, x: Seq<char>)
    requires
        match instance_index(before, record.instance_id@) {
            Some(k) => after == before.update(k, record),
            None => after == before.push(record),
        },
    ensures
        instance_index(before, x) is Some ==> instance_index(after, x) is Some,
        instance_index(after, record.instance_id@) is Some,
        forall|k: int| 0 <= k < after.len() ==> #[trigger] after[k] == record || exists|kk: int| 0 <= kk < before.len() && before[kk] == after[k],
{
    let id = record.instance_id@;
    let w: int = match instance_index(before, id) {
        Some(k) => k,
        None => before.len() as int,
    };
    assert(after[w].instance_id@ == id);
    if instance_index(before, x) is Some {
        let v = instance_index(before, x)->0;
        if v == w {
            assert(before[v].instance_id@ == id);
            assert(after[w].instance_id@ == x);
        } else {
            assert(after[v].instance_id@ == x);
        }
    }
    assert forall|k: int| 0 <= k < after.len() implies #[trigger] after[k] == record || exists|kk: int| 0 <= kk < before.len() && before[kk] == after[k] by {
        if k != w {
            assert(before[k] == after[k]);
        }
    }
}

/// After an upsert the store holds the upserted record under its id.
pub proof fn lemma_get_after_upsert(before: Seq<VpsInstanceRecord>, after: Seq<VpsInstanceRecord>, record: VpsInstanceRecord)
    requires
        unique_instance_ids(before),
        unique_instance_ids(after),
        match instance_index(before, record.instance_id@) {
            Some(k) => after == before.update(k, record),
            None => after == before.push(record),
        },
    ensures
        instance_index(after, record.instance_id@) is Some,
        after[instance_index(after, record.instance_id@)->0] == record,
{
    let id = record.instance_id@;
    let w: int = match instance_index(before, id) {
        Some(k) => k,
        None => before.len() as int,
    };
    assert(after[w].instance_id@ == id);
    let k2 = instance_index(after, id)->0;
    if k2 != w {
        assert(after[k2].instance_id@ == id);
    }
}

/// The record held under `id`, if any.
pub open spec fn instance_under(s: Seq<VpsInstanceRecord>, id: Seq<char>) -> Option<VpsInstanceRecord> {
    match instance_index(s, id) {
        Some(k) => Some(s[k]),
        None => None,
    }
}

/// `s` without the record under `id`; `s` itself when there is none.
pub open spec fn removed_from(s: Seq<VpsInstanceRecord>, id: Seq<char>) -> Seq<VpsInstanceRecord> {
    match instance_index(s, id) {
        Some(k) => s.remove(k),
        None => s,
    }
}

proof fn lemma_instance_index_is(s: Seq<VpsInstanceRecord>, id: Seq<char>, k: int)
    requires
        unique_instance_ids(s),
        0 <= k < s.len(),
        s[k].instance_id@ == id,
    ensures
        instance_index(s, id) == Some(k),
{
    let c = instance_index(s, id)->0;
    if c != k {
        assert(s[c].instance_id@ == id);
    }
}

/// Removing one id leaves what every other id finds unchanged.
pub proof fn lemma_remove_keeps_others(before: Seq<VpsInstanceRecord>, id: Seq<char>, other: Seq<char>)
    requires
        unique_instance_ids(before),
        other != id,
    ensures
        instance_under(removed_from(before, id), other) == instance_under(before, other),
{
    if let Some(k) = instance_index(before, id) {
        let after = before.remove(k);
        assert(before[k].instance_id@ == id);
        assert forall|a: int, b: int| 0 <= a < after.len() && 0 <= b < after.len() && a != b
            implies #[trigger] after[a].instance_id@ != #[trigger] after[b].instance_id@ by {
            let a2 = if a < k { a } else { a + 1 };
            let b2 = if b < k { b } else { b + 1 };
            assert(after[a] == before[a2]);
            assert(after[b] == before[b2]);
        }
        if let Some(p) = instance_index(before, other) {
            assert(before[p].instance_id@ == other);
            assert(p != k);
            let q = if p < k { p } else { p - 1 };
            assert(after[q] == before[p]);
            lemma_instance_index_is(after, other, q);
        } else {
            if let Some(q) = instance_index(after, other) {
                let q2 = if q < k { q } else { q + 1 };
                assert(after[q] == before[q2]);
                assert(before[q2].instance_id@ == other);
            }
        }
    }
}

/// Removing an id twice does what removing it once does.
pub proof fn lemma_remove_idempotent(before: Seq<VpsInstanceRecord>, id: Seq<char>)
    requires
        unique_instance_ids(before),
    ensures
        removed_from(removed_from(before, id), id) == removed_from(before, id),
{
    let once = removed_from(before, id);
    lemma_get_after_remove(before, once, id);
}

/// After a removal the store holds no record under the removed id.
pub proof fn lemma_get_after_remove(before: Seq<VpsInstanceRecord>, after: Seq<VpsInstanceRecord>, id: Seq<char>)
    requires
        unique_instance_ids(before),
        match instance_index(before, id) {
            Some(k) => after == before.remove(k),
            None => after == before,
        },
    ensures
        instance_index(after, id) is None,
{
    if exists|j: int| 0 <= j < after.len() && #[trigger] after[j].instance_id@ == id {
        let j = choose|j: int| 0 <= j < after.len() && #[trigger] after[j].instance_id@ == id;
        match instance_index(before, id) {
            Some(k) => {
                let j2 = if j < k { j } else { j + 1 };
                assert(after[j] == before[j2]);
                assert(before[k].instance_id@ == id);
            },
            None => {},
        }
    }
}

// ─── Event log ───────────────────────────────────────────────────────────────

/// An event recorded on the node.
#[derive(Debug, Clone)]
pub struct EventRecord {
    pub id: String,
    pub instance_id: String,
    pub event_type: String,
    pub severity: String,
    pub description: String,
    pub timestamp: String,
    pub resolved: bool,
}

/// Whether no two events of `s` share an id.
pub open spec fn unique_event_ids(s: Seq<EventRecord>) -> bool {
    forall|i: int, j: int| 0 <= i < s.len() && 0 <= j < s.len() && i != j
        ==> #[trigger] s[i].id@ != #[trigger] s[j].id@
}

/// Index of the event with id `id`, if any.
pub open spec fn event_index(s: Seq<EventRecord>, id: Seq<char>) -> Option<int> {
    if exists|i: int| 0 <= i < s.len() && #[trigger] s[i].id@ == id {
        Some(choose|i: int| 0 <= i < s.len() && #[trigger] s[i].id@ == id)
    } else {
        None
    }
}

/// The events of `s` for instance `instance`, in order.
pub open spec fn events_for(s: Seq<EventRecord>, instance: Seq<char>) -> Seq<EventRecord>
    decreases s.len(),
{
    if s.len() == 0 {
        Seq::empty()
    } else if s.last().instance_id@ == instance {
        events_for(s.drop_last(), instance).push(s.last())
    } else {
        events_for(s.drop_last(), instance)
    }
}

/// Node events, at most one per event id, in insertion order.
pub struct EventStore {
    records: Vec<EventRecord>,
}

impl EventRecord {
    /// An equal copy of the event.
    pub fn clone_record(&self) -> (r: EventRecord)
        ensures
            r == *self,
    {
        EventRecord {
            id: self.id.clone(),
            instance_id: self.instance_id.clone(),
            event_type: self.event_type.clone(),
            severity: self.severity.clone(),
            description: self.description.clone(),
            timestamp: self.timestamp.clone(),
            resolved: self.resolved,
        }
    }
}

impl EventStore {
    #[verifier::type_invariant]
    spec fn unique(&self) -> bool {
        unique_event_ids(self.records@)
    }

    /// The events held.
    pub closed spec fn records(&self) -> Seq<EventRecord> {
        self.records@
    }

    /// An empty event log.
    pub fn empty() -> (s: Self)
        ensures
            s.records() == Seq::<EventRecord>::empty(),
    {
        EventStore { records: Vec::new() }
    }

    /// A log holding the events of a snapshot; of several events with the
    /// same id the last one is kept.
    pub fn new(snapshot: Vec<EventRecord>) -> (s: Self)
        ensures
            forall|i: int| 0 <= i < snapshot@.len() ==>
                #[trigger] event_index(s.records(), snapshot@[i].id@) is Some,
    {
        let mut s = EventStore::empty();
        let mut i: usize = 0;
        while i < snapshot.len()
            invariant
                i <= snapshot.len(),
                forall|j: int| 0 <= j < i ==> #[trigger] event_index(s.records(), snapshot@[j].id@) is Some,
            decreases snapshot.len() - i,
        {
            let ghost before = s.records();
            s.append(snapshot[i].clone_record());
            proof {
                assert forall|j: int| 0 <= j <= i implies #[trigger] event_index(s.records(), snapshot@[j].id@) is Some by {
                    if j < i {
                        let w = event_index(before, snapshot@[j].id@)->0;
                        assert(s.records()[w].id@ == snapshot@[j].id@);
                    } else {
                        let w = match event_index(before, snapshot@[i as int].id@) {
                            Some(k) => k,
                            None => before.len() as int,
                        };
                        assert(s.records()[w].id@ == snapshot@[j].id@);
                    }
                }
            }
            i = i + 1;
        }
        s
    }

    /// Record an event, replacing the event with the same id.
    pub fn append(&mut self, record: EventRecord)
        ensures
            match event_index(old(self).records(), record.id@) {
                Some(k) => final(self).records() == old(self).records().update(k, record),
                None => final(self).records() == old(self).records().push(record),
            },
    {
        proof { use_type_invariant(&*self); }
        let ghost id = record.id@;
        let n = self.records.len();
        let mut i: usize = 0;
        while i < n
            invariant
                n == self.records@.len(),
                unique_event_ids(self.records@),
                self.records@ == old(self).records@,
                id == record.id@,
                i <= n,
                forall|j: int| 0 <= j < i ==> #[trigger] self.records@[j].id@ != id,
            decreases n - i,
        {
            if str_equal(self.records[i].id.as_str(), record.id.as_str()) {
                proof {
                    let k = event_index(self.records@, id)->0;
                    assert(self.records@[i as int].id@ == id);
                    if k != i {
                        assert(self.records@[k].id@ == id);
                    }
                    let updated = self.records@.update(i as int, record);
                    assert forall|a: int, b: int| 0 <= a < updated.len() && 0 <= b < updated.len() && a != b
                        implies #[trigger] updated[a].id@ != #[trigger] updated[b].id@ by {
                        if a == i {
                            assert(self.records@[b].id@ != self.records@[i as int].id@);
                        } else if b == i {
                            assert(self.records@[a].id@ != self.records@[i as int].id@);
                        }
                    }
                }
                let mut recs: Vec<EventRecord> = Vec::new();
                std::mem::swap(&mut recs, &mut self.records);
                recs.set(i, record);
                self.records = recs;
                proof { use_type_invariant(&*self); }
                return;
            }
            i = i + 1;
        }
        proof {
            if exists|j: int| 0 <= j < self.records@.len() && #[trigger] self.records@[j].id@ == id {
                let j = choose|j: int| 0 <= j < self.records@.len() && #[trigger] self.records@[j].id@ == id;
                assert(self.records@[j].id@ != id);
            }
            let pushed = self.records@.push(record);
            assert forall|a: int, b: int| 0 <= a < pushed.len() && 0 <= b < pushed.len() && a != b
                implies #[trigger] pushed[a].id@ != #[trigger] pushed[b].id@ by {
                if a == n {
                    assert(self.records@[b].id@ != id);
                } else if b == n {
                    assert(self.records@[a].id@ != id);
                }
            }
        }
        let mut recs: Vec<EventRecord> = Vec::new();
        std::mem::swap(&mut recs, &mut self.records);
        recs.push(record);
        self.records = recs;
    }

    /// The events of one instance, in insertion order.
    pub fn list_for_instance(&self, instance_id: &str) -> (r: Vec<&EventRecord>)
        ensures
            r@.len() == events_for(self.records(), instance_id@).len(),
            forall|k: int| 0 <= k < r@.len() ==> *#[trigger] r@[k] == events_for(self.records(), instance_id@)[k],
    {
        let mut r: Vec<&EventRecord> = Vec::new();
        let mut i: usize = 0;
        while i < self.records.len()
            invariant
                i <= self.records@.len(),
                r@.len() == events_for(self.records@.take(i as int), instance_id@).len(),
                forall|k: int| 0 <= k < r@.len() ==> *#[trigger] r@[k] == events_for(self.records@.take(i as int), instance_id@)[k],
            decreases self.records@.len() - i,
        {
            proof {
                assert(self.records@.take(i + 1).drop_last() =~= self.records@.take(i as int));
            }
            if str_equal(self.records[i].instance_id.as_str(), instance_id) {
                r.push(&self.records[i]);
            }
            i = i + 1;
        }
        assert(self.records@.take(self.records@.len() as int) =~= self.records@);
        r
    }

    /// The events as they are to be written to the snapshot file.
    pub fn snapshot(&self) -> (r: Vec<EventRecord>)
        ensures
            r@ == self.records(),
    {
        let mut r: Vec<EventRecord> = Vec::new();
        let mut i: usize = 0;
        while i < self.records.len()
            invariant
                i <= self.records@.len(),
                r@ == self.records@.take(i as int),
            decreases self.records@.len() - i,
        {
            r.push(self.records[i].clone_record());
            assert(r@ =~= self.records@.take(i + 1));
            i = i + 1;
        }
        assert(self.records@.take(self.records@.len() as int) =~= self.records@);
        r
    }
}

} // verus!
