use clawops::api_keys::{ApiKeyStore, AuditLogEntry, AuditLogStore};
use clawops::auth_cmd::{handle_auth_command, handle_auth_command_at, AuthCommandParams, AuthReply};
use clawops::secrets_cmd::ParamValue;

fn text(s: &str) -> ParamValue {
    ParamValue::Text(s.to_string())
}

fn no_params() -> AuthCommandParams {
    AuthCommandParams {
        label: ParamValue::Absent,
        scopes: None,
        key_id: ParamValue::Absent,
        limit: None,
        actor: ParamValue::Absent,
        action: ParamValue::Absent,
    }
}

fn entry(id: &str, ts: i64, actor: &str, action: &str) -> AuditLogEntry {
    AuditLogEntry {
        id: id.to_string(),
        timestamp: ts,
        actor: actor.to_string(),
        action: action.to_string(),
        resource: "vps".to_string(),
        resource_id: None,
        result: "success".to_string(),
        details: None,
    }
}

#[test]
fn create_key_stores_only_the_hash() {
    let mut keys = ApiKeyStore::empty();
    let audit = AuditLogStore::empty();
    let mut p = no_params();
    p.label = text("ci");
    p.scopes = Some(vec![text("vps.*"), ParamValue::Other, text("config.read")]);
    let r = handle_auth_command_at(&mut keys, &audit, "auth.create_key", &p, 5, "secret-1", "abc123");
    match r {
        Ok(AuthReply::KeyCreated { key_id, secret, note }) => {
            assert_eq!(key_id, "key-abc123");
            assert_eq!(secret, "secret-1");
            assert_eq!(note, "Store this secret — it will not be shown again");
        }
        _ => panic!("expected a created key"),
    }
    let k = keys.get("key-abc123").expect("stored");
    assert_eq!(k.secret_hash, "f7e7c36e458e80e6b6a2c67d0a9ec09bd718dadd7bfa8d6bf6e7ad526e46c2f7");
    assert_eq!(k.name, "ci");
    assert_eq!(k.scopes, vec!["vps.*".to_string(), "config.read".to_string()]);
    assert_eq!(k.role, "operator");
    assert!(k.active);
    assert_eq!(k.created_at, 5);
    let again = handle_auth_command_at(&mut keys, &audit, "auth.create_key", &no_params(), 6, "s", "abc123");
    assert_eq!(again.err(), Some("auth.create_key error: key 'key-abc123' already exists".to_string()));
}

#[test]
fn unnamed_key_revoke_and_list() {
    let mut keys = ApiKeyStore::empty();
    let audit = AuditLogStore::empty();
    let created = handle_auth_command(&mut keys, &audit, "auth.create_key", &no_params());
    let key_id = match created {
        Ok(AuthReply::KeyCreated { key_id, .. }) => key_id,
        _ => panic!("expected a created key"),
    };
    assert!(key_id.starts_with("key-"));
    assert_eq!(key_id.len(), 36);
    let mut p = no_params();
    p.key_id = ParamValue::Text(key_id.clone());
    let revoked = handle_auth_command(&mut keys, &audit, "auth.revoke_key", &p);
    assert!(matches!(revoked, Ok(AuthReply::KeyRevoked { .. })));
    match handle_auth_command(&mut keys, &audit, "auth.list_keys", &no_params()) {
        Ok(AuthReply::Keys { keys: listed }) => {
            assert_eq!(listed.len(), 1);
            assert_eq!(listed[0].name, "unnamed");
            assert!(!listed[0].active);
        }
        _ => panic!("expected the key list"),
    }
    p.key_id = text("key-missing");
    let missing = handle_auth_command(&mut keys, &audit, "auth.revoke_key", &p);
    assert_eq!(missing.err(), Some("auth.revoke error: key 'key-missing' not found".to_string()));
    let no_id = handle_auth_command(&mut keys, &audit, "auth.revoke_key", &no_params());
    assert_eq!(no_id.err(), Some("missing 'key_id'".to_string()));
    let unknown = handle_auth_command(&mut keys, &audit, "auth.reset", &no_params());
    assert_eq!(unknown.err(), Some("unknown auth command: auth.reset".to_string()));
}

#[test]
fn audit_query_filters_and_limits_newest_first() {
    let mut keys = ApiKeyStore::empty();
    let audit = AuditLogStore::new(vec![
        entry("a", 1, "ops", "provision"),
        entry("b", 3, "ops", "teardown"),
        entry("c", 2, "bot", "provision"),
        entry("d", 4, "ops", "provision"),
    ]);
    let mut p = no_params();
    p.actor = text("ops");
    p.limit = Some(2);
    match handle_auth_command(&mut keys, &audit, "audit.query", &p) {
        Ok(AuthReply::Entries { entries }) => {
            let ids: Vec<&str> = entries.iter().map(|e| e.id.as_str()).collect();
            assert_eq!(ids, vec!["d", "b"]);
        }
        _ => panic!("expected entries"),
    }
    let mut q = no_params();
    q.action = text("provision");
    match handle_auth_command(&mut keys, &audit, "audit.query", &q) {
        Ok(AuthReply::Entries { entries }) => {
            let ids: Vec<&str> = entries.iter().map(|e| e.id.as_str()).collect();
            assert_eq!(ids, vec!["d", "c", "a"]);
        }
        _ => panic!("expected entries"),
    }
}
