//! The `auth.*` and `audit.query` node commands: API keys are created with
//! a random secret of which only the SHA-256 hash is stored, revoked and
//! listed; the auth audit log is queried with optional filters.

use vstd::prelude::*;
use vstd::string::*;
use vstd::utf8::*;
use crate::api_keys::{
    ApiKeyRecord, ApiKeyStore, AuditLogEntry, AuditLogStore, key_position, matching_log, newest_first,
    revoked,
};
use crate::auth::AuthError;
use crate::identity::{hex_encode, hex_lower, sha256, sha256_digest};
use crate::secrets_cmd::ParamValue;
use crate::sources::{clock_millis, now_millis, random_uuid, random_uuid_simple, v4_digits, v4_hyphenated};
use crate::text::{owned, push_str, str_equal};

verus! {

/// The parameters the auth commands read.
pub struct AuthCommandParams {
    /// `label` of a new key.
    pub label: ParamValue,
    /// `scopes` of a new key: its items when it is an array, else `None`.
    pub scopes: Option<Vec<ParamValue>>,
    /// `key_id` of the key to revoke.
    pub key_id: ParamValue,
    /// `limit` of a query, when it is a non-negative integer.
    pub limit: Option<u64>,
    /// `actor` filter of a query.
    pub actor: ParamValue,
    /// `action` filter of a query.
    pub action: ParamValue,
}

/// The successful answers of the auth commands.
pub enum AuthReply {
    /// A key was created; `secret` is shown this once, with `note`.
    KeyCreated { key_id: String, secret: String, note: String },
    /// The key was deactivated.
    KeyRevoked { key_id: String },
    /// All keys, in store order.
    Keys { keys: Vec<ApiKeyRecord> },
    /// The audit entries found, newest first.
    Entries { entries: Vec<AuditLogEntry> },
}

/// The string of a parameter, if it is one.
pub open spec fn param_text(p: ParamValue) -> Option<Seq<char>> {
    match p {
        ParamValue::Text(s) => Some(s@),
        _ => None,
    }
}

/// The string items of an array parameter, in order.
pub open spec fn text_items(items: Seq<ParamValue>) -> Seq<Seq<char>>
    decreases items.len(),
{
    if items.len() == 0 {
        Seq::empty()
    } else {
        match param_text(items.last()) {
            Some(t) => text_items(items.drop_last()).push(t),
            None => text_items(items.drop_last()),
        }
    }
}

/// The scopes of a new key: the string items of `scopes`, none if absent.
pub open spec fn scope_texts(scopes: Option<Vec<ParamValue>>) -> Seq<Seq<char>> {
    match scopes {
        Some(v) => text_items(v@),
        None => Seq::empty(),
    }
}

/// Whether two key records hold the same values.
pub open spec fn same_record(a: ApiKeyRecord, b: ApiKeyRecord) -> bool {
    &&& a.key_id == b.key_id
    &&& a.name == b.name
    &&& a.secret_hash == b.secret_hash
    &&& a.scopes@ == b.scopes@
    &&& a.role == b.role
    &&& a.active == b.active
    &&& a.created_at == b.created_at
    &&& a.last_used == b.last_used
    &&& a.expires_at == b.expires_at
    &&& a.rotates_key_id == b.rotates_key_id
}

/// The hex SHA-256 of a secret's UTF-8 bytes, as stored.
pub open spec fn secret_hash_text(secret: Seq<char>) -> Seq<char> {
    hex_lower(sha256_digest(encode_utf8(secret)))
}

/// Whether `k` is the record created at `now` with the given id, label,
/// secret and scopes.
pub open spec fn created_record(k: ApiKeyRecord, key_id: Seq<char>, label: Seq<char>, secret: Seq<char>,
    scopes: Seq<Seq<char>>, now: i64) -> bool {
    &&& k.key_id@ == key_id
    &&& k.name@ == label
    &&& k.secret_hash@ == secret_hash_text(secret)
    &&& k.scopes@.map_values(|s: String| s@) == scopes
    &&& k.role@ == "operator"@
    &&& k.active
    &&& k.created_at == now
    &&& k.last_used is None
    &&& k.expires_at is None
    &&& k.rotates_key_id is None
}

/// The label of a new key: the `label` string, else `unnamed`.
pub open spec fn key_label(p: ParamValue) -> Seq<char> {
    match param_text(p) {
        Some(t) => t,
        None => "unnamed"@,
    }
}

/// The number of entries a query returns at most: `limit`, else 50.
pub open spec fn query_limit(limit: Option<u64>) -> usize {
    match limit {
        Some(n) => n as usize,
        None => 50usize,
    }
}

/// What an auth command does: `keys_before`/`keys_after` are the key
/// store's keys around the call, `log` the audit entries, `r` the answer;
/// `secret` and `key_uuid` are the random values a new key is made from.
pub open spec fn auth_command_outcome(
    keys_before: Seq<ApiKeyRecord>,
    keys_after: Seq<ApiKeyRecord>,
    log: Seq<AuditLogEntry>,
    command: Seq<char>,
    params: AuthCommandParams,
    now: i64,
    secret: Seq<char>,
    key_uuid: Seq<char>,
    r: Result<AuthReply, String>,
) -> bool {
    let new_id = "key-"@ + key_uuid;
    &&& (command == "auth.create_key"@ ==> match key_position(keys_before, new_id) {
        Some(_) => r matches Err(m) && m@ == "auth.create_key error: key '"@ + new_id + "' already exists"@
            && keys_after == keys_before,
        None => r matches Ok(AuthReply::KeyCreated { key_id, secret: s, note })
            && key_id@ == new_id && s@ == secret
            && note@ == "Store this secret \u{2014} it will not be shown again"@
            && keys_after.len() == keys_before.len() + 1
            && keys_after.drop_last() == keys_before
            && created_record(keys_after.last(), new_id, key_label(params.label), secret,
                scope_texts(params.scopes), now),
    })
    &&& (command == "auth.revoke_key"@ ==> match param_text(params.key_id) {
        None => r matches Err(m) && m@ == "missing 'key_id'"@ && keys_after == keys_before,
        Some(id) => match key_position(keys_before, id) {
            Some(k) => r matches Ok(AuthReply::KeyRevoked { key_id }) && key_id@ == id
                && keys_after.len() == keys_before.len()
                && (forall|j: int| 0 <= j < keys_before.len() && j != k ==> keys_after[j] == keys_before[j])
                && revoked(keys_before[k], keys_after[k]),
            None => r matches Err(m) && m@ == "auth.revoke error: key '"@ + id + "' not found"@
                && keys_after == keys_before,
        },
    })
    &&& (command == "auth.list_keys"@ ==> keys_after == keys_before
        && (r matches Ok(AuthReply::Keys { keys }) && keys@.len() == keys_before.len()
            && forall|j: int| 0 <= j < keys_before.len() ==> same_record(#[trigger] keys@[j], keys_before[j])))
    &&& (command == "audit.query"@ ==> keys_after == keys_before && ({
        let sorted = newest_first(matching_log(log, param_text(params.actor), param_text(params.action)));
        let lim = query_limit(params.limit);
        let n = if sorted.len() < lim { sorted.len() } else { lim as nat };
        r matches Ok(AuthReply::Entries { entries }) && entries@ == sorted.take(n as int)
    }))
    &&& (!(command == "auth.create_key"@ || command == "auth.revoke_key"@ || command == "auth.list_keys"@
        || command == "audit.query"@) ==> (r matches Err(m) && m@ == "unknown auth command: "@ + command
            && keys_after == keys_before))
}

fn text_of(p: &ParamValue) -> (r: Option<&str>)
    ensures
        match r {
            Some(s) => param_text(*p) == Some(s@),
            None => param_text(*p) is None,
        },
{
    match p {
        ParamValue::Text(s) => Some(s.as_str()),
        _ => None,
    }
}

fn scope_list(scopes: &Option<Vec<ParamValue>>) -> (r: Vec<String>)
    ensures
        r@.map_values(|s: String| s@) == scope_texts(*scopes),
{
    let mut out: Vec<String> = Vec::new();
    match scopes {
        None => {
            assert(out@.map_values(|s: String| s@) =~= Seq::<Seq<char>>::empty());
        },
        Some(items) => {
            let mut i: usize = 0;
            while i < items.len()
                invariant
                    i <= items@.len(),
                    out@.map_values(|s: String| s@) == text_items(items@.take(i as int)),
                decreases items@.len() - i,
            {
                assert(items@.take(i as int + 1).drop_last() =~= items@.take(i as int));
                let ghost before = out@.map_values(|s: String| s@);
                match &items[i] {
                    ParamValue::Text(s) => {
                        out.push(s.clone());
                        assert(out@.map_values(|s: String| s@) =~= before.push(s@));
                    },
                    _ => {},
                }
                i = i + 1;
            }
            assert(items@.take(items@.len() as int) =~= items@);
        },
    }
    out
}

fn clone_strings(v: &Vec<String>) -> (r: Vec<String>)
    ensures
        r@ == v@,
{
    let mut out: Vec<String> = Vec::new();
    let mut i: usize = 0;
    while i < v.len()
        invariant
            i <= v@.len(),
            out@ == v@.take(i as int),
        decreases v@.len() - i,
    {
        out.push(v[i].clone());
        assert(out@ =~= v@.take(i as int + 1));
        i = i + 1;
    }
    assert(v@.take(v@.len() as int) =~= v@);
    out
}

fn clone_opt(s: &Option<String>) -> (r: Option<String>)
    ensures
        r == *s,
{
    match s {
        Some(v) => Some(v.clone()),
        None => None,
    }
}

fn copy_record(k: &ApiKeyRecord) -> (r: ApiKeyRecord)
    ensures
        same_record(r, *k),
{
    ApiKeyRecord {
        key_id: k.key_id.clone(),
        name: k.name.clone(),
        secret_hash: k.secret_hash.clone(),
        scopes: clone_strings(&k.scopes),
        role: k.role.clone(),
        active: k.active,
        created_at: k.created_at,
        last_used: k.last_used,
        expires_at: k.expires_at,
        rotates_key_id: clone_opt(&k.rotates_key_id),
    }
}

fn copy_entry(e: &AuditLogEntry) -> (r: AuditLogEntry)
    ensures
        r == *e,
{
    AuditLogEntry {
        id: e.id.clone(),
        timestamp: e.timestamp,
        actor: e.actor.clone(),
        action: e.action.clone(),
        resource: e.resource.clone(),
        resource_id: clone_opt(&e.resource_id),
        result: e.result.clone(),
        details: clone_opt(&e.details),
    }
}

fn joined2(a: &str, b: &str) -> (r: String)
    ensures
        r@ == a@ + b@,
{
    let mut r = owned(a);
    push_str(&mut r, b);
    r
}

fn joined3(a: &str, b: &str, c: &str) -> (r: String)
    ensures
        r@ == a@ + b@ + c@,
{
    let mut r = owned(a);
    push_str(&mut r, b);
    push_str(&mut r, c);
    r
}

/// Runs the auth command `command` at time `now`; a new key gets the
/// secret `secret` and the id `key-<key_uuid>`.
pub fn handle_auth_command_at(
    keys: &mut ApiKeyStore,
    audit: &AuditLogStore,
    command: &str,
    params: &AuthCommandParams,
    now: i64,
    secret: &str,
    key_uuid: &str,
) -> (r: Result<AuthReply, String>)
    ensures
        auth_command_outcome(old(keys).keys(), final(keys).keys(), audit.entries(), command@, *params, now,
            secret@, key_uuid@, r),
{
    proof {
        reveal_strlit("auth.create_key");
        reveal_strlit("auth.revoke_key");
        reveal_strlit("auth.list_keys");
        reveal_strlit("audit.query");
        assert("auth.create_key"@[5] == 'c');
        assert("auth.revoke_key"@[5] == 'r');
        assert("auth.list_keys"@[5] == 'l');
        assert("audit.query"@.len() == 11);
        assert("auth.create_key"@.len() == 15);
        assert("auth.revoke_key"@.len() == 15);
        assert("auth.list_keys"@.len() == 14);
    }
    if str_equal(command, "auth.create_key") {
        let label = match text_of(&params.label) {
            Some(l) => owned(l),
            None => owned("unnamed"),
        };
        let scopes = scope_list(&params.scopes);
        let digest = sha256(secret.as_bytes());
        let secret_hash = hex_encode(digest.as_slice());
        let key_id = joined2("key-", key_uuid);
        let record = ApiKeyRecord {
            key_id: key_id.clone(),
            name: label,
            secret_hash,
            scopes,
            role: owned("operator"),
            active: true,
            created_at: now,
            last_used: None,
            expires_at: None,
            rotates_key_id: None,
        };
        match keys.create(record) {
            Ok(()) => {
                assert(keys.keys().drop_last() =~= old(keys).keys());
                Ok(AuthReply::KeyCreated {
                    key_id,
                    secret: owned(secret),
                    note: owned("Store this secret \u{2014} it will not be shown again"),
                })
            },
            Err(AuthError::KeyAlreadyExists(id)) => {
                let m = joined3("auth.create_key error: key '", id.as_str(), "' already exists");
                proof {
                    reveal_strlit("auth.create_key error: key '");
                }
                Err(m)
            },
            Err(_) => Err(owned("auth.create_key error")),
        }
    } else if str_equal(command, "auth.revoke_key") {
        let key_id = match text_of(&params.key_id) {
            Some(k) => k,
            None => return Err(owned("missing 'key_id'")),
        };
        match keys.revoke(key_id) {
            Ok(()) => Ok(AuthReply::KeyRevoked { key_id: owned(key_id) }),
            Err(AuthError::KeyNotFound(id)) => Err(joined3("auth.revoke error: key '", id.as_str(), "' not found")),
            Err(_) => Err(owned("auth.revoke error")),
        }
    } else if str_equal(command, "auth.list_keys") {
        let list = keys.list();
        let mut out: Vec<ApiKeyRecord> = Vec::new();
        let mut i: usize = 0;
        while i < list.len()
            invariant
                i <= list@.len(),
                list@.len() == keys.keys().len(),
                forall|k: int| 0 <= k < list@.len() ==> *#[trigger] list@[k] == keys.keys()[k],
                out@.len() == i,
                forall|j: int| 0 <= j < i ==> same_record(#[trigger] out@[j], keys.keys()[j]),
            decreases list@.len() - i,
        {
            out.push(copy_record(list[i]));
            i = i + 1;
        }
        Ok(AuthReply::Keys { keys: out })
    } else if str_equal(command, "audit.query") {
        let limit: usize = match params.limit {
            Some(n) => #[verifier::truncate] (n as usize),
            None => 50,
        };
        let found = audit.query(text_of(&params.actor), text_of(&params.action), limit);
        let ghost sorted = newest_first(matching_log(audit.entries(), param_text(params.actor),
            param_text(params.action)));
        let mut out: Vec<AuditLogEntry> = Vec::new();
        let mut i: usize = 0;
        while i < found.len()
            invariant
                i <= found@.len(),
                found@.len() <= sorted.len(),
                forall|k: int| 0 <= k < found@.len() ==> *#[trigger] found@[k] == sorted[k],
                out@ == sorted.take(i as int),
            decreases found@.len() - i,
        {
            out.push(copy_entry(found[i]));
            assert(out@ =~= sorted.take(i as int + 1));
            i = i + 1;
        }
        Ok(AuthReply::Entries { entries: out })
    } else {
        Err(joined2("unknown auth command: ", command))
    }
}

/// Runs the auth command `command` at the current time, with a fresh
/// random secret and key id.
pub fn handle_auth_command(
    keys: &mut ApiKeyStore,
    audit: &AuditLogStore,
    command: &str,
    params: &AuthCommandParams,
) -> (r: Result<AuthReply, String>)
    ensures
        exists|now: i64, secret: Seq<char>, key_uuid: Seq<char>| clock_millis(now) && v4_hyphenated(secret)
            && v4_digits(key_uuid) && #[trigger] auth_command_outcome(
            old(keys).keys(),
            final(keys).keys(),
            audit.entries(),
            command@,
            *params,
            now,
            secret,
            key_uuid,
            r,
        ),
{
    let now = now_millis();
    let secret = random_uuid();
    let key_uuid = random_uuid_simple();
    let r = handle_auth_command_at(keys, audit, command, params, now, secret.as_str(), key_uuid.as_str());
    assert(clock_millis(now) && v4_hyphenated(secret@) && v4_digits(key_uuid@));
    r
}

} // verus!
