//! The node's secret store: encrypted secret entries kept by name, with
//! rotation tracking. Times are milliseconds since the Unix epoch, UTC.
//! Persisting the store is left to the caller, who saves a snapshot after
//! each change.

use vstd::prelude::*;
use crate::text::{owned, str_equal};
use crate::sources::{clock_millis, now_millis};

verus! {

/// Errors from the secret store.
#[derive(Debug)]
pub enum SecretError {
    /// A secret with the given name already exists.
    AlreadyExists(String),
    /// No secret with the given name was found.
    NotFound(String),
    /// The secret exists but its rotation is overdue.
    RotationDue(String),
}

/// The message of a secret-store error.
pub open spec fn secret_error_text(e: SecretError) -> Seq<char> {
    match e {
        SecretError::AlreadyExists(n) => "secret '"@ + n@ + "' already exists"@,
        SecretError::NotFound(n) => "secret '"@ + n@ + "' not found"@,
        SecretError::RotationDue(n) => "rotation is due for secret '"@ + n@ + "'"@,
    }
}

impl SecretError {
    /// The error's message.
    pub fn message(&self) -> (r: String)
        ensures
            r@ == secret_error_text(*self),
    {
        let (head, n, tail) = match self {
            SecretError::AlreadyExists(n) => ("secret '", n, "' already exists"),
            SecretError::NotFound(n) => ("secret '", n, "' not found"),
            SecretError::RotationDue(n) => ("rotation is due for secret '", n, "'"),
        };
        let mut r = owned(head);
        crate::text::push_str(&mut r, n.as_str());
        crate::text::push_str(&mut r, tail);
        r
    }
}

/// An encrypted secret entry.
#[derive(Clone)]
pub struct SecretEntry {
    /// Secret name (used as the store key on creation).
    pub name: String,
    /// Encrypted data (base64-encoded ciphertext).
    pub encrypted_data: String,
    /// Nonce used for encryption (base64-encoded).
    pub nonce: String,
    /// Key version used for encryption.
    pub key_version: u32,
    /// Creation time.
    pub created_at: i64,
    /// Last rotation time.
    pub rotated_at: i64,
    /// When the next rotation is due (`None`: no policy).
    pub rotation_due: Option<i64>,
}

/// Whether the rotation of `e` is overdue at `now`.
pub open spec fn rotation_overdue(e: SecretEntry, now: i64) -> bool {
    match e.rotation_due {
        Some(due) => due < now,
        None => false,
    }
}

impl SecretEntry {
    pub fn clone_entry(&self) -> (r: SecretEntry)
        ensures
            r == *self,
    {
        SecretEntry {
            name: self.name.clone(),
            encrypted_data: self.encrypted_data.clone(),
            nonce: self.nonce.clone(),
            key_version: self.key_version,
            created_at: self.created_at,
            rotated_at: self.rotated_at,
            rotation_due: self.rotation_due,
        }
    }

    /// Whether this secret's rotation is overdue at `now`.
    pub fn is_rotation_due_at(&self, now: i64) -> (r: bool)
        ensures
            r == rotation_overdue(*self, now),
    {
        match self.rotation_due {
            Some(due) => due < now,
            None => false,
        }
    }

    /// Whether this secret's rotation is overdue at the current time: what
    /// `is_rotation_due_at` answers for some reading of the clock.
    pub fn is_rotation_due(&self) -> (r: bool)
        ensures
            exists|now: i64| clock_millis(now) && r == #[trigger] rotation_overdue(*self, now),
    {
        let now = now_millis();
        self.is_rotation_due_at(now)
    }
}

/// A stored secret under its key.
pub struct SecretSlot {
    pub key: String,
    pub entry: SecretEntry,
}

/// Whether no two slots share a key.
pub open spec fn unique_keys(s: Seq<SecretSlot>) -> bool {
    forall|i: int, j: int| 0 <= i < s.len() && 0 <= j < s.len() && i != j
        ==> #[trigger] s[i].key@ != #[trigger] s[j].key@
}

/// Index of the slot with key `k`, if any.
pub open spec fn key_index(s: Seq<SecretSlot>, k: Seq<char>) -> Option<int> {
    if exists|i: int| 0 <= i < s.len() && #[trigger] s[i].key@ == k {
        Some(choose|i: int| 0 <= i < s.len() && #[trigger] s[i].key@ == k)
    } else {
        None
    }
}

/// The secret stored under `k`.
pub open spec fn secret_under(s: Seq<SecretSlot>, k: Seq<char>) -> Option<SecretEntry> {
    match key_index(s, k) {
        Some(i) => Some(s[i].entry),
        None => None,
    }
}

/// The entries of `s`, in order.
pub open spec fn slot_entries(s: Seq<SecretSlot>) -> Seq<SecretEntry> {
    s.map_values(|x: SecretSlot| x.entry)
}

/// The entries of `s` whose rotation is overdue at `now`, in order.
pub open spec fn overdue_entries(s: Seq<SecretSlot>, now: i64) -> Seq<SecretEntry>
    decreases s.len(),
{
    if s.len() == 0 {
        Seq::empty()
    } else if rotation_overdue(s.last().entry, now) {
        overdue_entries(s.drop_last(), now).push(s.last().entry)
    } else {
        overdue_entries(s.drop_last(), now)
    }
}

/// Secrets by key, at most one per key.
pub struct SecretStore {
    slots: Vec<SecretSlot>,
}

impl SecretStore {
    #[verifier::type_invariant]
    pub(crate) open spec fn unique(&self) -> bool {
        unique_keys(self.slots())
    }

    /// The stored secrets under their keys, in insertion order.
    pub closed spec fn slots(&self) -> Seq<SecretSlot> {
        self.slots@
    }

    /// An empty store.
    pub fn empty() -> (s: Self)
        ensures
            s.slots() == Seq::<SecretSlot>::empty(),
            unique_keys(s.slots()),
    {
        SecretStore { slots: Vec::new() }
    }

    /// A store holding the slots of a snapshot; of several slots with one
    /// key the first is kept.
    pub fn new(snapshot: Vec<SecretSlot>) -> (s: Self)
        ensures
            forall|i: int| 0 <= i < snapshot@.len() ==> #[trigger] key_index(s.slots(), snapshot@[i].key@) is Some,
            forall|k: int| 0 <= k < s.slots().len() ==> snapshot@.contains(#[trigger] s.slots()[k]),
            unique_keys(s.slots()),
    {
        let mut s = SecretStore::empty();
        let mut v = snapshot;
        let ghost snap = v@;
        let mut i: usize = 0;
        let n = v.len();
        while i < n
            invariant
                n == snap.len(),
                v@.len() == n - i,
                forall|j: int| 0 <= j < v@.len() ==> v@[j] == snap[i + j],
                i <= n,
                forall|j: int| 0 <= j < i ==> #[trigger] key_index(s.slots(), snap[j].key@) is Some,
                forall|k: int| 0 <= k < s.slots().len() ==> snap.contains(#[trigger] s.slots()[k]),
            decreases n - i,
        {
            let slot = v.remove(0);
            assert(slot == snap[i as int]);
            let ghost before = s.slots();
            s.put_new(slot);
            proof {
                assert forall|j: int| 0 <= j <= i implies #[trigger] key_index(s.slots(), snap[j].key@) is Some by {
                    if key_index(before, snap[j].key@) is Some {
                        let k = key_index(before, snap[j].key@)->0;
                        assert(s.slots()[k] == before[k]);
                    } else if j == i {
                        assert(s.slots()[before.len() as int].key@ == snap[j].key@);
                    }
                }
                assert forall|k: int| 0 <= k < s.slots().len() implies snap.contains(#[trigger] s.slots()[k]) by {
                    if k < before.len() {
                        assert(s.slots()[k] == before[k]);
                    } else {
                        assert(snap[i as int] == s.slots()[k]);
                    }
                }
            }
            i = i + 1;
        }
        proof { use_type_invariant(&s); }
        s
    }

    /// Adds `slot` unless its key is taken.
    fn put_new(&mut self, slot: SecretSlot)
        ensures
            match key_index(old(self).slots(), slot.key@) {
                Some(_) => final(self).slots() == old(self).slots(),
                None => final(self).slots() == old(self).slots().push(slot),
            },
    {
        proof { use_type_invariant(&*self); }
        match self.find(slot.key.as_str()) {
            Some(_) => {},
            None => {
                proof {
                    let pushed = self.slots@.push(slot);
                    assert forall|a: int, b: int| 0 <= a < pushed.len() && 0 <= b < pushed.len() && a != b
                        implies #[trigger] pushed[a].key@ != #[trigger] pushed[b].key@ by {
                        if a == self.slots@.len() {
                            assert(pushed[b] == self.slots@[b]);
                        } else if b == self.slots@.len() {
                            assert(pushed[a] == self.slots@[a]);
                        }
                    }
                }
                let mut slots: Vec<SecretSlot> = Vec::new();
                std::mem::swap(&mut slots, &mut self.slots);
                slots.push(slot);
                self.slots = slots;
            },
        }
    }

    fn find(&self, name: &str) -> (r: Option<usize>)
        ensures
            match r {
                Some(i) => i < self.slots@.len() && key_index(self.slots@, name@) == Some(i as int),
                None => key_index(self.slots@, name@) is None,
            },
    {
        proof { use_type_invariant(self); }
        let n = self.slots.len();
        let mut i: usize = 0;
        while i < n
            invariant
                n == self.slots@.len(),
                unique_keys(self.slots@),
                i <= n,
                forall|j: int| 0 <= j < i ==> #[trigger] self.slots@[j].key@ != name@,
            decreases n - i,
        {
            if str_equal(self.slots[i].key.as_str(), name) {
                proof {
                    let k = key_index(self.slots@, name@)->0;
                    assert(self.slots@[i as int].key@ == name@);
                    if k != i {
                        assert(self.slots@[k].key@ == name@);
                    }
                }
                return Some(i);
            }
            i = i + 1;
        }
        proof {
            if exists|j: int| 0 <= j < self.slots@.len() && #[trigger] self.slots@[j].key@ == name@ {
                let j = choose|j: int| 0 <= j < self.slots@.len() && #[trigger] self.slots@[j].key@ == name@;
                assert(self.slots@[j].key@ != name@);
            }
        }
        None
    }

    /// Creates a secret under its own name; fails with `AlreadyExists` when
    /// the name is taken.
    pub fn create(&mut self, entry: SecretEntry) -> (r: Result<(), SecretError>)
        ensures
            match key_index(old(self).slots(), entry.name@) {
                Some(_) => r matches Err(SecretError::AlreadyExists(n)) && n@ == entry.name@
                    && final(self).slots() == old(self).slots(),
                None => r is Ok && final(self).slots().len() == old(self).slots().len() + 1
                    && final(self).slots().drop_last() == old(self).slots()
                    && final(self).slots().last().key@ == entry.name@
                    && final(self).slots().last().entry == entry,
            },
            unique_keys(final(self).slots()),
    {
        let r = match self.find(entry.name.as_str()) {
            Some(_) => Err(SecretError::AlreadyExists(entry.name.clone())),
            None => {
                let key = entry.name.clone();
                self.put_new(SecretSlot { key, entry });
                assert(self.slots@.drop_last() =~= old(self).slots@);
                Ok(())
            },
        };
        proof { use_type_invariant(&*self); }
        r
    }

    /// The secret stored under `name`.
    pub fn get(&self, name: &str) -> (r: Option<&SecretEntry>)
        ensures
            match key_index(self.slots(), name@) {
                Some(k) => r == Some(&self.slots()[k].entry),
                None => r is None,
            },
    {
        match self.find(name) {
            Some(i) => Some(&self.slots[i].entry),
            None => None,
        }
    }

    /// The secret stored under `name`, refused with `RotationDue` when its
    /// rotation is overdue at `now`, and with `NotFound` when there is none.
    pub fn get_checked_at(&self, name: &str, now: i64) -> (r: Result<&SecretEntry, SecretError>)
        ensures
            match key_index(self.slots(), name@) {
                Some(k) => if rotation_overdue(self.slots()[k].entry, now) {
                    r matches Err(SecretError::RotationDue(n)) && n@ == name@
                } else {
                    r == Ok::<&SecretEntry, SecretError>(&self.slots()[k].entry)
                },
                None => r matches Err(SecretError::NotFound(n)) && n@ == name@,
            },
    {
        match self.find(name) {
            Some(i) => {
                if self.slots[i].entry.is_rotation_due_at(now) {
                    Err(SecretError::RotationDue(owned(name)))
                } else {
                    Ok(&self.slots[i].entry)
                }
            },
            None => Err(SecretError::NotFound(owned(name))),
        }
    }

    /// The secret stored under `name`, refused with `RotationDue` when its
    /// rotation is overdue at the current time.
    pub fn get_checked(&self, name: &str) -> (r: Result<&SecretEntry, SecretError>)
        ensures
            match key_index(self.slots(), name@) {
                Some(k) => match r {
                    Ok(e) => *e == self.slots()[k].entry,
                    Err(SecretError::RotationDue(n)) => n@ == name@ && self.slots()[k].entry.rotation_due is Some,
                    Err(_) => false,
                },
                None => r matches Err(SecretError::NotFound(n)) && n@ == name@,
            },
    {
        let now = now_millis();
        self.get_checked_at(name, now)
    }

    /// Replaces the secret under `name`; fails with `NotFound` when there is
    /// none.
    pub fn update(&mut self, name: &str, entry: SecretEntry) -> (r: Result<(), SecretError>)
        ensures
            match key_index(old(self).slots(), name@) {
                Some(k) => r is Ok && final(self).slots().len() == old(self).slots().len()
                    && (forall|j: int| 0 <= j < old(self).slots().len() && j != k
                        ==> final(self).slots()[j] == old(self).slots()[j])
                    && final(self).slots()[k].key == old(self).slots()[k].key
                    && final(self).slots()[k].entry == entry,
                None => r matches Err(SecretError::NotFound(n)) && n@ == name@
                    && final(self).slots() == old(self).slots(),
            },
            unique_keys(final(self).slots()),
    {
        proof { use_type_invariant(&*self); }
        let r = match self.find(name) {
            Some(i) => {
                let mut slots: Vec<SecretSlot> = Vec::new();
                std::mem::swap(&mut slots, &mut self.slots);
                let old_slot = slots.remove(i);
                let slot = SecretSlot { key: old_slot.key, entry };
                slots.insert(i, slot);
                proof {
                    assert forall|a: int, b: int| 0 <= a < slots@.len() && 0 <= b < slots@.len() && a != b
                        implies #[trigger] slots@[a].key@ != #[trigger] slots@[b].key@ by {
                        assert(slots@[a].key == old(self).slots@[a].key);
                        assert(slots@[b].key == old(self).slots@[b].key);
                    }
                }
                self.slots = slots;
                Ok(())
            },
            None => Err(SecretError::NotFound(owned(name))),
        };
        proof { use_type_invariant(&*self); }
        r
    }

    /// Removes the secret under `name`, giving it back.
    pub fn delete(&mut self, name: &str) -> (r: Option<SecretEntry>)
        ensures
            match key_index(old(self).slots(), name@) {
                Some(k) => r == Some(old(self).slots()[k].entry)
                    && final(self).slots() == old(self).slots().remove(k),
                None => r is None && final(self).slots() == old(self).slots(),
            },
            unique_keys(final(self).slots()),
    {
        proof { use_type_invariant(&*self); }
        let r = match self.find(name) {
            Some(i) => {
                proof {
                    let removed = self.slots@.remove(i as int);
                    assert forall|a: int, b: int| 0 <= a < removed.len() && 0 <= b < removed.len() && a != b
                        implies #[trigger] removed[a].key@ != #[trigger] removed[b].key@ by {
                        let a2 = if a < i { a } else { a + 1 };
                        let b2 = if b < i { b } else { b + 1 };
                        assert(removed[a] == self.slots@[a2]);
                        assert(removed[b] == self.slots@[b2]);
                    }
                }
                let mut slots: Vec<SecretSlot> = Vec::new();
                std::mem::swap(&mut slots, &mut self.slots);
                let slot = slots.remove(i);
                self.slots = slots;
                Some(slot.entry)
            },
            None => None,
        };
        proof { use_type_invariant(&*self); }
        r
    }

    /// A copy of the stored slots, for persisting.
    pub fn snapshot(&self) -> (r: Vec<SecretSlot>)
        ensures
            r@ == self.slots(),
    {
        let mut r: Vec<SecretSlot> = Vec::new();
        let mut i: usize = 0;
        while i < self.slots.len()
            invariant
                i <= self.slots@.len(),
                r@ == self.slots@.take(i as int),
            decreases self.slots@.len() - i,
        {
            r.push(SecretSlot { key: self.slots[i].key.clone(), entry: self.slots[i].entry.clone_entry() });
            assert(r@ =~= self.slots@.take(i + 1));
            i = i + 1;
        }
        assert(self.slots@.take(self.slots@.len() as int) =~= self.slots@);
        r
    }

    /// All stored secrets.
    pub fn list(&self) -> (r: Vec<&SecretEntry>)
        ensures
            r@.len() == self.slots().len(),
            forall|k: int| 0 <= k < r@.len() ==> *#[trigger] r@[k] == self.slots()[k].entry,
    {
        let mut r: Vec<&SecretEntry> = Vec::new();
        let mut i: usize = 0;
        while i < self.slots.len()
            invariant
                i <= self.slots@.len(),
                r@.len() == i,
                forall|k: int| 0 <= k < i ==> *#[trigger] r@[k] == self.slots@[k].entry,
            decreases self.slots@.len() - i,
        {
            r.push(&self.slots[i].entry);
            i = i + 1;
        }
        r
    }

    /// The stored secrets whose rotation is overdue at `now`.
    pub fn rotation_due_at(&self, now: i64) -> (r: Vec<&SecretEntry>)
        ensures
            r@.len() == overdue_entries(self.slots(), now).len(),
            forall|k: int| 0 <= k < r@.len() ==> *#[trigger] r@[k] == overdue_entries(self.slots(), now)[k],
    {
        let mut r: Vec<&SecretEntry> = Vec::new();
        let mut i: usize = 0;
        while i < self.slots.len()
            invariant
                i <= self.slots@.len(),
                r@.len() == overdue_entries(self.slots@.take(i as int), now).len(),
                forall|k: int| 0 <= k < r@.len() ==> *#[trigger] r@[k] == overdue_entries(self.slots@.take(i as int), now)[k],
            decreases self.slots@.len() - i,
        {
            proof {
                assert(self.slots@.take(i + 1).drop_last() =~= self.slots@.take(i as int));
            }
            if self.slots[i].entry.is_rotation_due_at(now) {
                r.push(&self.slots[i].entry);
            }
            i = i + 1;
        }
        assert(self.slots@.take(self.slots@.len() as int) =~= self.slots@);
        r
    }

    /// The stored secrets whose rotation is overdue at the current time.
    pub fn rotation_due(&self) -> (r: Vec<&SecretEntry>)
        ensures
            exists|now: i64| clock_millis(now) && r@.len() == overdue_entries(self.slots(), now).len()
                && forall|k: int| 0 <= k < r@.len() ==> *#[trigger] r@[k] == overdue_entries(self.slots(), now)[k],
    {
        let now = now_millis();
        let r = self.rotation_due_at(now);
        assert(clock_millis(now));
        r
    }
}

/// A secret just created can be read back under its name, unchanged.
pub proof fn lemma_get_after_create(before: Seq<SecretSlot>, after: Seq<SecretSlot>, entry: SecretEntry)
    requires
        unique_keys(after),
        key_index(before, entry.name@) is None,
        after.len() == before.len() + 1,
        after.drop_last() == before,
        after.last().key@ == entry.name@,
        after.last().entry == entry,
    ensures
        secret_under(after, entry.name@) == Some(entry),
{
    let n = before.len() as int;
    assert(after[n].key@ == entry.name@);
    let k = key_index(after, entry.name@)->0;
    if k != n {
        assert(after[k].key@ == after[n].key@);
    }
}

} // verus!
