//! RBAC API keys and the auth audit log of a node. Times are milliseconds
//! since the Unix epoch, UTC. Persisting the stores is left to the caller,
//! who saves a snapshot after each change.

use vstd::prelude::*;
use crate::auth::AuthError;
use crate::text::{owned, str_equal};
use crate::sources::{clock_millis, now_millis};

verus! {

// ─── API keys ────────────────────────────────────────────────────────────────

/// An API key record for RBAC.
#[derive(Debug, Clone)]
pub struct ApiKeyRecord {
    /// Unique key identifier.
    pub key_id: String,
    /// Human-readable name for this key.
    pub name: String,
    /// SHA-256 hash of the raw secret.
    pub secret_hash: String,
    /// Permitted scopes (e.g. `vps.*`, `config.read`).
    pub scopes: Vec<String>,
    /// RBAC role name.
    pub role: String,
    /// Whether the key is currently active.
    pub active: bool,
    /// Creation time.
    pub created_at: i64,
    /// Last successful use.
    pub last_used: Option<i64>,
    /// Keys past this instant are rejected.
    pub expires_at: Option<i64>,
    /// If set, this key is a rotation successor for the named key id.
    pub rotates_key_id: Option<String>,
}

/// Whether key `k` has expired at `now`.
pub open spec fn key_expired(k: ApiKeyRecord, now: i64) -> bool {
    match k.expires_at {
        Some(exp) => exp < now,
        None => false,
    }
}

/// Whether key `k` is active and unexpired at `now`.
pub open spec fn key_valid(k: ApiKeyRecord, now: i64) -> bool {
    k.active && !key_expired(k, now)
}

impl ApiKeyRecord {
    /// Whether this key has expired at `now`.
    pub fn is_expired_at(&self, now: i64) -> (r: bool)
        ensures
            r == key_expired(*self, now),
    {
        match self.expires_at {
            Some(exp) => exp < now,
            None => false,
        }
    }

    /// Whether this key has expired at the current time: what
    /// `is_expired_at` answers for some reading of the clock.
    pub fn is_expired(&self) -> (r: bool)
        ensures
            exists|now: i64| clock_millis(now) && r == #[trigger] key_expired(*self, now),
    {
        let now = now_millis();
        self.is_expired_at(now)
    }

    /// Whether this key is active and unexpired at `now`.
    pub fn is_valid_at(&self, now: i64) -> (r: bool)
        ensures
            r == key_valid(*self, now),
    {
        self.active && !self.is_expired_at(now)
    }

    /// Whether this key is active and unexpired at the current time: what
    /// `is_valid_at` answers for some reading of the clock.
    pub fn is_valid(&self) -> (r: bool)
        ensures
            exists|now: i64| clock_millis(now) && r == #[trigger] key_valid(*self, now),
            r ==> self.active,
            self.active && self.expires_at is None ==> r,
    {
        let now = now_millis();
        self.is_valid_at(now)
    }
}

/// Position of the first key of `s` with id `id`.
pub open spec fn key_position(s: Seq<ApiKeyRecord>, id: Seq<char>) -> Option<int> {
    if exists|i: int| 0 <= i < s.len() && #[trigger] s[i].key_id@ == id
        && forall|j: int| 0 <= j < i ==> s[j].key_id@ != id {
        Some(choose|i: int| 0 <= i < s.len() && #[trigger] s[i].key_id@ == id
            && forall|j: int| 0 <= j < i ==> s[j].key_id@ != id)
    } else {
        None
    }
}

proof fn lemma_key_position_is(s: Seq<ApiKeyRecord>, id: Seq<char>, i: int)
    requires
        0 <= i < s.len(),
        s[i].key_id@ == id,
        forall|j: int| 0 <= j < i ==> s[j].key_id@ != id,
    ensures
        key_position(s, id) == Some(i),
{
    let c = choose|c: int| 0 <= c < s.len() && #[trigger] s[c].key_id@ == id
        && forall|j: int| 0 <= j < c ==> s[j].key_id@ != id;
    assert(0 <= i < s.len() && s[i].key_id@ == id && forall|j: int| 0 <= j < i ==> s[j].key_id@ != id);
    assert(c == i);
}

/// Position of the first key of `s` with hash `h` that passes `valid`:
/// active and unexpired at `now`, or only active when `now` is `None`.
pub open spec fn hash_position(s: Seq<ApiKeyRecord>, h: Seq<char>, now: Option<i64>) -> Option<int> {
    if exists|i: int| 0 <= i < s.len() && #[trigger] hash_hit(s[i], h, now)
        && forall|j: int| 0 <= j < i ==> !hash_hit(s[j], h, now) {
        Some(choose|i: int| 0 <= i < s.len() && #[trigger] hash_hit(s[i], h, now)
            && forall|j: int| 0 <= j < i ==> !hash_hit(s[j], h, now))
    } else {
        None
    }
}

/// Key `k` has hash `h` and is active, and unexpired at `now` if given.
pub open spec fn hash_hit(k: ApiKeyRecord, h: Seq<char>, now: Option<i64>) -> bool {
    k.secret_hash@ == h && k.active && match now {
        Some(t) => !key_expired(k, t),
        None => true,
    }
}

/// `r` is the first key of `keys` with hash `h` that is active and
/// unexpired at `now`, or `None` when there is no such key.
pub open spec fn found_by_hash(keys: Seq<ApiKeyRecord>, h: Seq<char>, now: i64, r: Option<&ApiKeyRecord>) -> bool {
    match hash_position(keys, h, Some(now)) {
        Some(k) => r == Some(&keys[k]),
        None => r is None,
    }
}

/// `after` is `before` with the key `key_id` last used at `now` and
/// nothing else changed; `before` itself when there is no such key.
pub open spec fn touched(before: Seq<ApiKeyRecord>, after: Seq<ApiKeyRecord>, key_id: Seq<char>, now: i64) -> bool {
    match key_position(before, key_id) {
        Some(k) => after == before.update(k, ApiKeyRecord { last_used: Some(now), ..before[k] }),
        None => after == before,
    }
}

/// `b` is `a` deactivated.
pub open spec fn revoked(a: ApiKeyRecord, b: ApiKeyRecord) -> bool {
    b == ApiKeyRecord { active: false, ..a }
}

/// A revoked key is never the one a validation by hash picks.
pub proof fn lemma_revoked_key_rejected(keys: Seq<ApiKeyRecord>, k: int, before: ApiKeyRecord, h: Seq<char>,
    now: Option<i64>)
    requires
        0 <= k < keys.len(),
        revoked(before, keys[k]),
    ensures
        hash_position(keys, h, now) != Some(k),
{
    if hash_position(keys, h, now) == Some(k) {
        assert(hash_hit(keys[k], h, now));
    }
}

/// The API keys, by key id.
pub struct ApiKeyStore {
    keys: Vec<ApiKeyRecord>,
}

impl ApiKeyStore {
    /// The stored keys, in insertion order.
    pub closed spec fn keys(&self) -> Seq<ApiKeyRecord> {
        self.keys@
    }

    /// An empty store.
    pub fn empty() -> (s: Self)
        ensures
            s.keys() == Seq::<ApiKeyRecord>::empty(),
    {
        ApiKeyStore { keys: Vec::new() }
    }

    /// A store holding the keys of a snapshot, in order.
    pub fn new(snapshot: Vec<ApiKeyRecord>) -> (s: Self)
        ensures
            s.keys() == snapshot@,
    {
        ApiKeyStore { keys: snapshot }
    }

    fn find(&self, key_id: &str) -> (r: Option<usize>)
        ensures
            match r {
                Some(i) => i < self.keys@.len() && key_position(self.keys@, key_id@) == Some(i as int),
                None => key_position(self.keys@, key_id@) is None
                    && forall|j: int| 0 <= j < self.keys@.len() ==> #[trigger] self.keys@[j].key_id@ != key_id@,
            },
    {
        let mut i: usize = 0;
        while i < self.keys.len()
            invariant
                i <= self.keys@.len(),
                forall|j: int| 0 <= j < i ==> #[trigger] self.keys@[j].key_id@ != key_id@,
            decreases self.keys@.len() - i,
        {
            if str_equal(self.keys[i].key_id.as_str(), key_id) {
                proof {
                    lemma_key_position_is(self.keys@, key_id@, i as int);
                }
                return Some(i);
            }
            i = i + 1;
        }
        None
    }

    fn find_hash(&self, secret_hash: &str, now: Option<i64>) -> (r: Option<usize>)
        ensures
            match r {
                Some(i) => i < self.keys@.len() && hash_position(self.keys@, secret_hash@, now) == Some(i as int),
                None => hash_position(self.keys@, secret_hash@, now) is None,
            },
    {
        let mut i: usize = 0;
        while i < self.keys.len()
            invariant
                i <= self.keys@.len(),
                forall|j: int| 0 <= j < i ==> !hash_hit(#[trigger] self.keys@[j], secret_hash@, now),
            decreases self.keys@.len() - i,
        {
            let k = &self.keys[i];
            let hit = str_equal(k.secret_hash.as_str(), secret_hash) && k.active && match now {
                Some(t) => !k.is_expired_at(t),
                None => true,
            };
            if hit {
                proof {
                    let s = self.keys@;
                    let c = choose|c: int| 0 <= c < s.len() && #[trigger] hash_hit(s[c], secret_hash@, now)
                        && forall|j: int| 0 <= j < c ==> !hash_hit(s[j], secret_hash@, now);
                    assert(hash_hit(s[i as int], secret_hash@, now));
                    assert(c == i);
                }
                return Some(i);
            }
            i = i + 1;
        }
        proof {
            let s = self.keys@;
            if exists|c: int| 0 <= c < s.len() && #[trigger] hash_hit(s[c], secret_hash@, now)
                && forall|j: int| 0 <= j < c ==> !hash_hit(s[j], secret_hash@, now) {
                let c = choose|c: int| 0 <= c < s.len() && #[trigger] hash_hit(s[c], secret_hash@, now)
                    && forall|j: int| 0 <= j < c ==> !hash_hit(s[j], secret_hash@, now);
                assert(!hash_hit(s[c], secret_hash@, now));
            }
        }
        None
    }

    /// Adds a key; fails with `KeyAlreadyExists` when its id is taken.
    pub fn create(&mut self, record: ApiKeyRecord) -> (r: Result<(), AuthError>)
        ensures
            match key_position(old(self).keys(), record.key_id@) {
                Some(_) => r matches Err(AuthError::KeyAlreadyExists(id)) && id@ == record.key_id@
                    && final(self).keys() == old(self).keys(),
                None => r is Ok && final(self).keys() == old(self).keys().push(record),
            },
    {
        match self.find(record.key_id.as_str()) {
            Some(_) => Err(AuthError::KeyAlreadyExists(record.key_id)),
            None => {
                self.keys.push(record);
                Ok(())
            },
        }
    }

    /// The key with id `key_id`.
    pub fn get(&self, key_id: &str) -> (r: Option<&ApiKeyRecord>)
        ensures
            match key_position(self.keys(), key_id@) {
                Some(k) => r == Some(&self.keys()[k]),
                None => r is None,
            },
    {
        match self.find(key_id) {
            Some(i) => Some(&self.keys[i]),
            None => None,
        }
    }

    /// The first active key with hash `secret_hash` that is unexpired at `now`.
    pub fn find_by_hash_at(&self, secret_hash: &str, now: i64) -> (r: Option<&ApiKeyRecord>)
        ensures
            found_by_hash(self.keys(), secret_hash@, now, r),
    {
        match self.find_hash(secret_hash, Some(now)) {
            Some(i) => Some(&self.keys[i]),
            None => None,
        }
    }

    /// The first active key with hash `secret_hash` that is unexpired now:
    /// what `find_by_hash_at` answers for some reading of the clock.
    pub fn find_by_hash(&self, secret_hash: &str) -> (r: Option<&ApiKeyRecord>)
        ensures
            exists|now: i64| clock_millis(now) && #[trigger] found_by_hash(self.keys(), secret_hash@, now, r),
            r matches Some(k) ==> k.secret_hash@ == secret_hash@ && k.active,
            hash_position(self.keys(), secret_hash@, None) is None ==> r is None,
    {
        let now = now_millis();
        let r = self.find_by_hash_at(secret_hash, now);
        proof {
            if hash_position(self.keys@, secret_hash@, None) is None {
                if hash_position(self.keys@, secret_hash@, Some(now)) is Some {
                    let k = hash_position(self.keys@, secret_hash@, Some(now))->0;
                    let s = self.keys@;
                    assert(hash_hit(s[k], secret_hash@, None));
                    assert(exists|i: int| 0 <= i < s.len() && #[trigger] hash_hit(s[i], secret_hash@, None));
                    lemma_first_hit_exists(s, secret_hash@, k);
                }
            }
        }
        r
    }

    /// Checks a key by hash at `now`: the first active key with that hash;
    /// `KeyNotFound` when there is none, `TokenExpired` when it has expired.
    pub fn validate_key_at(&self, secret_hash: &str, now: i64) -> (r: Result<&ApiKeyRecord, AuthError>)
        ensures
            match hash_position(self.keys(), secret_hash@, None) {
                None => r matches Err(AuthError::KeyNotFound(h)) && h@ == secret_hash@,
                Some(k) => match self.keys()[k].expires_at {
                    Some(exp) if exp < now => r matches Err(AuthError::TokenExpired(t)) && t == exp,
                    _ => r == Ok::<&ApiKeyRecord, AuthError>(&self.keys()[k]),
                },
            },
    {
        match self.find_hash(secret_hash, None) {
            None => Err(AuthError::KeyNotFound(owned(secret_hash))),
            Some(i) => {
                let k = &self.keys[i];
                match k.expires_at {
                    Some(exp) => {
                        if exp < now {
                            Err(AuthError::TokenExpired(exp))
                        } else {
                            Ok(k)
                        }
                    },
                    None => Ok(k),
                }
            },
        }
    }

    /// Checks a key by hash at the current time.
    pub fn validate_key(&self, secret_hash: &str) -> (r: Result<&ApiKeyRecord, AuthError>)
        ensures
            match hash_position(self.keys(), secret_hash@, None) {
                None => r matches Err(AuthError::KeyNotFound(h)) && h@ == secret_hash@,
                Some(k) => match r {
                    Ok(x) => *x == self.keys()[k],
                    Err(AuthError::TokenExpired(t)) => self.keys()[k].expires_at == Some(t),
                    Err(_) => false,
                },
            },
    {
        let now = now_millis();
        self.validate_key_at(secret_hash, now)
    }

    /// Deactivates the key with id `key_id`; `KeyNotFound` when there is none.
    pub fn revoke(&mut self, key_id: &str) -> (r: Result<(), AuthError>)
        ensures
            match key_position(old(self).keys(), key_id@) {
                Some(k) => r is Ok && final(self).keys().len() == old(self).keys().len()
                    && (forall|j: int| 0 <= j < old(self).keys().len() && j != k
                        ==> final(self).keys()[j] == old(self).keys()[j])
                    && revoked(old(self).keys()[k], final(self).keys()[k]),
                None => r matches Err(AuthError::KeyNotFound(id)) && id@ == key_id@
                    && final(self).keys() == old(self).keys(),
            },
    {
        match self.find(key_id) {
            Some(i) => {
                let mut k = self.keys.remove(i);
                k.active = false;
                self.keys.insert(i, k);
                Ok(())
            },
            None => Err(AuthError::KeyNotFound(owned(key_id))),
        }
    }

    /// Rotates a key: adds `new_record` as its successor and deactivates the
    /// key `old_key_id`. Fails with `KeyNotFound` when that key is missing
    /// and with `KeyAlreadyExists` when the new id is taken, changing nothing.
    pub fn rotate(&mut self, old_key_id: &str, new_record: ApiKeyRecord) -> (r: Result<(), AuthError>)
        ensures
            match key_position(old(self).keys(), old_key_id@) {
                None => r matches Err(AuthError::KeyNotFound(id)) && id@ == old_key_id@
                    && final(self).keys() == old(self).keys(),
                Some(k) => match key_position(old(self).keys(), new_record.key_id@) {
                    Some(_) => r matches Err(AuthError::KeyAlreadyExists(id)) && id@ == new_record.key_id@
                        && final(self).keys() == old(self).keys(),
                    None => r is Ok && final(self).keys().len() == old(self).keys().len() + 1
                        && final(self).keys().last() == new_record
                        && (forall|j: int| 0 <= j < old(self).keys().len() && j != k
                            ==> final(self).keys()[j] == old(self).keys()[j])
                        && revoked(old(self).keys()[k], final(self).keys()[k]),
                },
            },
    {
        if self.find(old_key_id).is_none() {
            return Err(AuthError::KeyNotFound(owned(old_key_id)));
        }
        let ghost before = self.keys@;
        let ghost k = key_position(before, old_key_id@)->0;
        match self.create(new_record) {
            Err(e) => return Err(e),
            Ok(()) => {},
        }
        proof {
            let s = self.keys@;
            assert(s[k] == before[k]);
            assert forall|j: int| 0 <= j < k implies s[j].key_id@ != old_key_id@ by {
                assert(s[j] == before[j]);
            }
            lemma_key_position_is(s, old_key_id@, k);
        }
        let ghost mid = self.keys@;
        let res = self.revoke(old_key_id);
        proof {
            assert(res is Ok);
            assert(self.keys@.last() == mid.last());
        }
        res
    }

    /// Removes the key with id `key_id`, giving it back.
    pub fn delete(&mut self, key_id: &str) -> (r: Option<ApiKeyRecord>)
        ensures
            match key_position(old(self).keys(), key_id@) {
                Some(k) => r == Some(old(self).keys()[k]) && final(self).keys() == old(self).keys().remove(k),
                None => r is None && final(self).keys() == old(self).keys(),
            },
    {
        match self.find(key_id) {
            Some(i) => Some(self.keys.remove(i)),
            None => None,
        }
    }

    /// All keys, active and inactive.
    pub fn list(&self) -> (r: Vec<&ApiKeyRecord>)
        ensures
            r@.len() == self.keys().len(),
            forall|k: int| 0 <= k < r@.len() ==> *#[trigger] r@[k] == self.keys()[k],
    {
        let mut r: Vec<&ApiKeyRecord> = Vec::new();
        let mut i: usize = 0;
        while i < self.keys.len()
            invariant
                i <= self.keys@.len(),
                r@.len() == i,
                forall|k: int| 0 <= k < i ==> *#[trigger] r@[k] == self.keys@[k],
            decreases self.keys@.len() - i,
        {
            r.push(&self.keys[i]);
            i = i + 1;
        }
        r
    }

    /// Records a use of the key `key_id` at `now`.
    pub fn touch_at(&mut self, key_id: &str, now: i64)
        ensures
            touched(old(self).keys(), final(self).keys(), key_id@, now),
    {
        match self.find(key_id) {
            Some(i) => {
                let mut k = self.keys.remove(i);
                k.last_used = Some(now);
                self.keys.insert(i, k);
                assert(self.keys@ =~= old(self).keys@.update(i as int,
                    ApiKeyRecord { last_used: Some(now), ..old(self).keys@[i as int] }));
            },
            None => {},
        }
    }

    /// Records a use of the key `key_id` now: what `touch_at` does for some
    /// reading of the clock.
    pub fn touch(&mut self, key_id: &str)
        ensures
            exists|now: i64| clock_millis(now) && #[trigger] touched(old(self).keys(), final(self).keys(), key_id@, now),
    {
        let now = now_millis();
        self.touch_at(key_id, now);
    }
}

proof fn lemma_first_hit_exists(s: Seq<ApiKeyRecord>, h: Seq<char>, k: int)
    requires
        0 <= k < s.len(),
        hash_hit(s[k], h, None),
    ensures
        hash_position(s, h, None) is Some,
    decreases k,
{
    if exists|j: int| 0 <= j < k && #[trigger] hash_hit(s[j], h, None) {
        let j = choose|j: int| 0 <= j < k && #[trigger] hash_hit(s[j], h, None);
        lemma_first_hit_exists(s, h, j);
    } else {
        assert(0 <= k < s.len() && hash_hit(s[k], h, None) && forall|j: int| 0 <= j < k ==> !hash_hit(s[j], h, None));
    }
}

// ─── Auth audit log ──────────────────────────────────────────────────────────

/// A single entry in the auth audit log.
#[derive(Debug, Clone)]
pub struct AuditLogEntry {
    /// Unique entry ID.
    pub id: String,
    /// When the event occurred.
    pub timestamp: i64,
    /// Actor that performed the action (agent name or key id).
    pub actor: String,
    /// Action description (e.g. `provision`, `teardown`).
    pub action: String,
    /// Resource type affected.
    pub resource: String,
    /// Specific resource identifier.
    pub resource_id: Option<String>,
    /// Outcome (`success` or `failure`).
    pub result: String,
    /// Free-form details.
    pub details: Option<String>,
}

/// Position of the first entry of `s` with id `id`.
pub open spec fn entry_position(s: Seq<AuditLogEntry>, id: Seq<char>) -> Option<int> {
    if exists|i: int| 0 <= i < s.len() && #[trigger] s[i].id@ == id
        && forall|j: int| 0 <= j < i ==> s[j].id@ != id {
        Some(choose|i: int| 0 <= i < s.len() && #[trigger] s[i].id@ == id
            && forall|j: int| 0 <= j < i ==> s[j].id@ != id)
    } else {
        None
    }
}

pub open spec fn opt_text(o: Option<&str>) -> Option<Seq<char>> {
    match o {
        Some(s) => Some(s@),
        None => None,
    }
}

/// Whether `e` passes the optional actor and action filters.
pub open spec fn log_matches(e: AuditLogEntry, actor: Option<Seq<char>>, action: Option<Seq<char>>) -> bool {
    &&& (actor matches Some(a) ==> e.actor@ == a)
    &&& (action matches Some(a) ==> e.action@ == a)
}

/// The entries of `s` passing the filters, in order.
pub open spec fn matching_log(s: Seq<AuditLogEntry>, actor: Option<Seq<char>>, action: Option<Seq<char>>)
    -> Seq<AuditLogEntry>
    decreases s.len(),
{
    if s.len() == 0 {
        Seq::empty()
    } else if log_matches(s.last(), actor, action) {
        matching_log(s.drop_last(), actor, action).push(s.last())
    } else {
        matching_log(s.drop_last(), actor, action)
    }
}

/// `sorted` with `e` put before the first entry older than it.
pub open spec fn insert_newest(sorted: Seq<AuditLogEntry>, e: AuditLogEntry) -> Seq<AuditLogEntry>
    decreases sorted.len(),
{
    if sorted.len() == 0 {
        seq![e]
    } else if sorted[0].timestamp < e.timestamp {
        seq![e] + sorted
    } else {
        seq![sorted[0]] + insert_newest(sorted.drop_first(), e)
    }
}

/// `m` ordered newest first; entries with equal times keep their order.
pub open spec fn newest_first(m: Seq<AuditLogEntry>) -> Seq<AuditLogEntry>
    decreases m.len(),
{
    if m.len() == 0 { Seq::empty() } else { insert_newest(newest_first(m.drop_last()), m.last()) }
}

proof fn lemma_insert_at(sorted: Seq<AuditLogEntry>, e: AuditLogEntry, p: int)
    requires
        0 <= p <= sorted.len(),
        forall|j: int| 0 <= j < p ==> sorted[j].timestamp >= e.timestamp,
        p < sorted.len() ==> sorted[p].timestamp < e.timestamp,
    ensures
        insert_newest(sorted, e) == sorted.insert(p, e),
    decreases sorted.len(),
{
    if sorted.len() == 0 {
        assert(sorted.insert(p, e) =~= seq![e]);
    } else if p == 0 {
        assert(sorted.insert(0, e) =~= seq![e] + sorted);
    } else {
        let rest = sorted.drop_first();
        assert forall|j: int| 0 <= j < p - 1 implies rest[j].timestamp >= e.timestamp by {
            assert(rest[j] == sorted[j + 1]);
        }
        if p - 1 < rest.len() {
            assert(rest[p - 1] == sorted[p]);
        }
        lemma_insert_at(rest, e, p - 1);
        assert(seq![sorted[0]] + rest.insert(p - 1, e) =~= sorted.insert(p, e));
    }
}

proof fn lemma_newest_first_len(m: Seq<AuditLogEntry>)
    ensures
        newest_first(m).len() == m.len(),
    decreases m.len(),
{
    if m.len() > 0 {
        lemma_newest_first_len(m.drop_last());
        lemma_insert_len(newest_first(m.drop_last()), m.last());
    }
}

proof fn lemma_insert_len(sorted: Seq<AuditLogEntry>, e: AuditLogEntry)
    ensures
        insert_newest(sorted, e).len() == sorted.len() + 1,
    decreases sorted.len(),
{
    if sorted.len() > 0 && sorted[0].timestamp >= e.timestamp {
        lemma_insert_len(sorted.drop_first(), e);
    }
}

/// The auth audit log, one entry per id.
pub struct AuditLogStore {
    entries: Vec<AuditLogEntry>,
}

impl AuditLogStore {
    /// The entries, in insertion order.
    pub closed spec fn entries(&self) -> Seq<AuditLogEntry> {
        self.entries@
    }

    /// An empty log.
    pub fn empty() -> (s: Self)
        ensures
            s.entries() == Seq::<AuditLogEntry>::empty(),
    {
        AuditLogStore { entries: Vec::new() }
    }

    /// A log holding the entries of a snapshot, in order.
    pub fn new(snapshot: Vec<AuditLogEntry>) -> (s: Self)
        ensures
            s.entries() == snapshot@,
    {
        AuditLogStore { entries: snapshot }
    }

    /// Adds `entry`, replacing the entry with the same id.
    pub fn append(&mut self, entry: AuditLogEntry)
        ensures
            match entry_position(old(self).entries(), entry.id@) {
                Some(k) => final(self).entries() == old(self).entries().update(k, entry),
                None => final(self).entries() == old(self).entries().push(entry),
            },
    {
        let mut i: usize = 0;
        while i < self.entries.len()
            invariant
                self.entries@ == old(self).entries@,
                i <= self.entries@.len(),
                forall|j: int| 0 <= j < i ==> #[trigger] self.entries@[j].id@ != entry.id@,
            decreases self.entries@.len() - i,
        {
            if str_equal(self.entries[i].id.as_str(), entry.id.as_str()) {
                proof {
                    let s = self.entries@;
                    let c = choose|c: int| 0 <= c < s.len() && #[trigger] s[c].id@ == entry.id@
                        && forall|j: int| 0 <= j < c ==> s[j].id@ != entry.id@;
                    assert(0 <= i < s.len() && s[i as int].id@ == entry.id@
                        && forall|j: int| 0 <= j < i ==> s[j].id@ != entry.id@);
                    assert(c == i);
                }
                self.entries.set(i, entry);
                return;
            }
            i = i + 1;
        }
        proof {
            let s = self.entries@;
            if exists|c: int| 0 <= c < s.len() && #[trigger] s[c].id@ == entry.id@
                && forall|j: int| 0 <= j < c ==> s[j].id@ != entry.id@ {
                let c = choose|c: int| 0 <= c < s.len() && #[trigger] s[c].id@ == entry.id@
                    && forall|j: int| 0 <= j < c ==> s[j].id@ != entry.id@;
                assert(s[c].id@ != entry.id@);
            }
        }
        self.entries.push(entry);
    }

    /// Entries passing the optional actor and action filters, newest
    /// first, at most `limit` of them.
    pub fn query(&self, actor: Option<&str>, action: Option<&str>, limit: usize) -> (r: Vec<&AuditLogEntry>)
        ensures
            ({
                let sorted = newest_first(matching_log(self.entries(), opt_text(actor), opt_text(action)));
                let n = if sorted.len() < limit { sorted.len() } else { limit as nat };
                &&& r@.len() == n
                &&& forall|k: int| 0 <= k < n ==> *#[trigger] r@[k] == sorted[k]
            }),
    {
        let ghost s = self.entries@;
        let ghost ac = opt_text(actor);
        let ghost an = opt_text(action);
        let mut sorted: Vec<&AuditLogEntry> = Vec::new();
        let mut i: usize = 0;
        while i < self.entries.len()
            invariant
                s == self.entries@,
                ac == opt_text(actor),
                an == opt_text(action),
                i <= s.len(),
                sorted@.len() == newest_first(matching_log(s.take(i as int), ac, an)).len(),
                forall|k: int| 0 <= k < sorted@.len() ==>
                    *#[trigger] sorted@[k] == newest_first(matching_log(s.take(i as int), ac, an))[k],
            decreases s.len() - i,
        {
            let e = &self.entries[i];
            proof {
                assert(s.take(i + 1).drop_last() =~= s.take(i as int));
                assert(s.take(i + 1).last() == *e);
            }
            let actor_ok = match actor {
                Some(a) => str_equal(e.actor.as_str(), a),
                None => true,
            };
            let action_ok = match action {
                Some(a) => str_equal(e.action.as_str(), a),
                None => true,
            };
            if actor_ok && action_ok {
                let ghost before = newest_first(matching_log(s.take(i as int), ac, an));
                let mut p: usize = 0;
                while p < sorted.len() && sorted[p].timestamp >= e.timestamp
                    invariant
                        p <= sorted@.len(),
                        sorted@.len() == before.len(),
                        forall|k: int| 0 <= k < sorted@.len() ==> *#[trigger] sorted@[k] == before[k],
                        forall|j: int| 0 <= j < p ==> before[j].timestamp >= e.timestamp,
                    decreases sorted@.len() - p,
                {
                    p = p + 1;
                }
                proof {
                    lemma_insert_at(before, *e, p as int);
                    assert(matching_log(s.take(i + 1), ac, an) == matching_log(s.take(i as int), ac, an).push(*e));
                    assert(matching_log(s.take(i + 1), ac, an).drop_last() =~= matching_log(s.take(i as int), ac, an));
                }
                let ghost old_sorted = sorted@;
                sorted.insert(p, e);
                proof {
                    let after = newest_first(matching_log(s.take(i + 1), ac, an));
                    assert(after == before.insert(p as int, *e));
                    assert forall|k: int| 0 <= k < sorted@.len() implies *#[trigger] sorted@[k] == after[k] by {
                        if k < p {
                            assert(sorted@[k] == old_sorted[k]);
                        } else if k > p {
                            assert(sorted@[k] == old_sorted[k - 1]);
                        }
                    }
                }
            }
            i = i + 1;
        }
        proof {
            assert(s.take(s.len() as int) =~= s);
        }
        sorted.truncate(limit);
        sorted
    }

    /// Whether the log holds a successful entry for `action` on `resource_id`.
    pub fn has_entry_for(&self, action: &str, resource_id: &str) -> (r: bool)
        ensures
            r == exists|k: int| 0 <= k < self.entries().len() && #[trigger] success_for(self.entries()[k],
                action@, resource_id@),
    {
        let mut i: usize = 0;
        while i < self.entries.len()
            invariant
                i <= self.entries@.len(),
                forall|j: int| 0 <= j < i ==> !success_for(#[trigger] self.entries@[j], action@, resource_id@),
            decreases self.entries@.len() - i,
        {
            let e = &self.entries[i];
            let hit = str_equal(e.action.as_str(), action) && match &e.resource_id {
                Some(r) => str_equal(r.as_str(), resource_id),
                None => false,
            } && str_equal(e.result.as_str(), "success");
            if hit {
                assert(success_for(self.entries()[i as int], action@, resource_id@));
                return true;
            }
            i = i + 1;
        }
        false
    }
}

/// `e` records a successful `action` on `resource_id`.
pub open spec fn success_for(e: AuditLogEntry, action: Seq<char>, resource_id: Seq<char>) -> bool {
    &&& e.action@ == action
    &&& (match e.resource_id {
        Some(r) => r@ == resource_id,
        None => false,
    })
    &&& e.result@ == "success"@
}

} // verus!
