use clawops::api_keys::{ApiKeyRecord, ApiKeyStore, AuditLogEntry, AuditLogStore};
use clawops::auth::AuthError;

fn now() -> i64 {
    chrono::Utc::now().timestamp_millis()
}

fn key(id: &str, name: &str, hash: &str, expires_at: Option<i64>, rotates: Option<&str>) -> ApiKeyRecord {
    ApiKeyRecord {
        key_id: id.to_string(),
        name: name.to_string(),
        secret_hash: hash.to_string(),
        scopes: vec![],
        role: "operator".to_string(),
        active: true,
        created_at: now(),
        last_used: None,
        expires_at,
        rotates_key_id: rotates.map(|s| s.to_string()),
    }
}

#[test]
fn test_api_key_store_crud() {
    let mut store = ApiKeyStore::empty();
    let mut k = key("k-1", "test-key", "abc123hash", None, None);
    k.scopes = vec!["vps.*".to_string()];
    store.create(k).expect("create");
    assert!(store.get("k-1").is_some());
    assert!(store.find_by_hash("abc123hash").is_some());
    store.revoke("k-1").expect("revoke");
    assert!(!store.get("k-1").expect("get").active);
    assert!(store.find_by_hash("abc123hash").is_none());
}

#[test]
fn test_key_expiry() {
    let mut store = ApiKeyStore::empty();
    // Key expired 1 second ago
    store.create(key("k-exp", "expired", "exp-hash", Some(now() - 1000), None)).expect("create");
    assert!(store.find_by_hash("exp-hash").is_none(), "expired key should not be found");
    assert!(matches!(store.validate_key("exp-hash"), Err(AuthError::TokenExpired(_))), "should return TokenExpired");
}

#[test]
fn test_key_rotation() {
    let mut store = ApiKeyStore::empty();
    store.create(key("k-old", "old", "old-hash", None, None)).expect("create old");
    store.rotate("k-old", key("k-new", "new", "new-hash", None, Some("k-old"))).expect("rotate");
    assert!(!store.get("k-old").expect("old exists").active, "old key must be revoked");
    assert!(store.find_by_hash("new-hash").is_some(), "new key must be active");
}

#[test]
fn test_audit_log_store() {
    let mut store = AuditLogStore::empty();
    store.append(AuditLogEntry {
        id: "a-1".to_string(),
        timestamp: now(),
        actor: "commander".to_string(),
        action: "provision".to_string(),
        resource: "instance".to_string(),
        resource_id: Some("i-abc".to_string()),
        result: "success".to_string(),
        details: None,
    });
    let all = store.query(None, None, 10);
    assert_eq!(all.len(), 1);
    assert!(store.has_entry_for("provision", "i-abc"));
    assert!(!store.has_entry_for("teardown", "i-abc"));
}

#[test]
fn api_key_store_errors_and_times() {
    let mut store = ApiKeyStore::new(vec![key("a", "a", "h", Some(100), None)]);
    assert!(matches!(store.create(key("a", "dup", "x", None, None)), Err(AuthError::KeyAlreadyExists(id)) if id == "a"));
    assert!(matches!(store.revoke("zz"), Err(AuthError::KeyNotFound(id)) if id == "zz"));
    assert!(matches!(store.rotate("zz", key("b", "b", "hb", None, None)), Err(AuthError::KeyNotFound(_))));
    assert!(matches!(store.rotate("a", key("a", "b", "hb", None, None)), Err(AuthError::KeyAlreadyExists(_))));
    assert_eq!(store.list().len(), 1);
    assert!(store.validate_key_at("h", 100).is_ok());
    assert!(matches!(store.validate_key_at("h", 101), Err(AuthError::TokenExpired(100))));
    assert!(matches!(store.validate_key_at("nope", 0), Err(AuthError::KeyNotFound(h)) if h == "nope"));
    assert!(store.find_by_hash_at("h", 100).is_some());
    assert!(store.find_by_hash_at("h", 101).is_none());
    store.touch_at("a", 77);
    assert_eq!(store.get("a").unwrap().last_used, Some(77));
    assert!(store.delete("a").is_some());
    assert!(store.delete("a").is_none());
}

fn entry(id: &str, ts: i64, actor: &str, action: &str) -> AuditLogEntry {
    AuditLogEntry {
        id: id.to_string(),
        timestamp: ts,
        actor: actor.to_string(),
        action: action.to_string(),
        resource: "instance".to_string(),
        resource_id: Some("i-1".to_string()),
        result: "failure".to_string(),
        details: None,
    }
}

#[test]
fn audit_log_newest_first_and_replace() {
    let mut store = AuditLogStore::empty();
    store.append(entry("e1", 10, "commander", "provision"));
    store.append(entry("e2", 30, "forge", "teardown"));
    store.append(entry("e3", 20, "commander", "teardown"));
    store.append(entry("e4", 30, "commander", "provision"));
    let ids: Vec<&str> = store.query(None, None, 10).iter().map(|e| e.id.as_str()).collect();
    assert_eq!(ids, vec!["e2", "e4", "e3", "e1"]);
    let ids: Vec<&str> = store.query(Some("commander"), None, 2).iter().map(|e| e.id.as_str()).collect();
    assert_eq!(ids, vec!["e4", "e3"]);
    let ids: Vec<&str> = store.query(None, Some("provision"), 10).iter().map(|e| e.id.as_str()).collect();
    assert_eq!(ids, vec!["e4", "e1"]);
    // A failed action is not a prior audit entry.
    assert!(!store.has_entry_for("teardown", "i-1"));
    let mut ok = entry("e2", 40, "forge", "teardown");
    ok.result = "success".to_string();
    store.append(ok);
    assert_eq!(store.query(None, None, 10).len(), 4);
    assert!(store.has_entry_for("teardown", "i-1"));
}
