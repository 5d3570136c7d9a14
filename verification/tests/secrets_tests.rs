use clawops::secrets::{SecretEntry, SecretError, SecretSlot, SecretStore};
use clawops::secrets_cmd::{
    decode_value, encode_value, handle_secret_command, handle_secret_command_at, ParamValue, SecretParams,
    SecretReply,
};

fn now() -> i64 {
    chrono::Utc::now().timestamp_millis()
}

fn make_entry(name: &str) -> SecretEntry {
    SecretEntry {
        name: name.to_string(),
        encrypted_data: "Y2lwaGVydGV4dA==".to_string(),
        nonce: "bm9uY2U=".to_string(),
        key_version: 1,
        created_at: now(),
        rotated_at: now(),
        rotation_due: None,
    }
}

#[test]
fn test_secret_store_crud() {
    let mut store = SecretStore::empty();
    store.create(make_entry("db-password")).expect("create");
    assert!(store.get("db-password").is_some());
    assert_eq!(store.list().len(), 1);
    assert!(store.create(make_entry("db-password")).is_err());
    store.delete("db-password");
    assert!(store.get("db-password").is_none());
}

#[test]
fn test_rotation_due_detected() {
    let mut store = SecretStore::empty();
    let mut entry = make_entry("stale");
    entry.rotation_due = Some(now() - 3_600_000);
    store.create(entry).expect("create");
    assert_eq!(store.rotation_due().len(), 1);
    assert!(
        matches!(store.get_checked("stale"), Err(SecretError::RotationDue(_))),
        "get_checked must return RotationDue for overdue secret"
    );
}

#[test]
fn test_fresh_secret_passes_check() {
    let mut store = SecretStore::empty();
    let mut entry = make_entry("fresh");
    entry.rotation_due = Some(now() + 30 * 86_400_000);
    store.create(entry).expect("create");
    assert!(store.get_checked("fresh").is_ok());
    assert_eq!(store.rotation_due().len(), 0);
}

#[test]
fn secret_store_update_delete_and_snapshot() {
    let mut store = SecretStore::new(vec![
        SecretSlot { key: "a".to_string(), entry: make_entry("a") },
        SecretSlot { key: "a".to_string(), entry: make_entry("other") },
        SecretSlot { key: "b".to_string(), entry: make_entry("b") },
    ]);
    assert_eq!(store.list().len(), 2);
    assert_eq!(store.get("a").unwrap().name, "a");
    assert!(matches!(store.update("zzz", make_entry("zzz")), Err(SecretError::NotFound(n)) if n == "zzz"));
    let mut rotated = make_entry("a");
    rotated.key_version = 2;
    store.update("a", rotated).unwrap();
    assert_eq!(store.get("a").unwrap().key_version, 2);
    assert!(matches!(store.create(make_entry("b")), Err(SecretError::AlreadyExists(n)) if n == "b"));
    let removed = store.delete("b").unwrap();
    assert_eq!(removed.name, "b");
    assert!(store.delete("b").is_none());
    let snap = store.snapshot();
    assert_eq!(snap.len(), 1);
    assert_eq!(snap[0].key, "a");
    let mut due = make_entry("c");
    due.rotation_due = Some(100);
    store.create(due).unwrap();
    assert!(matches!(store.get_checked_at("c", 101), Err(SecretError::RotationDue(_))));
    assert!(store.get_checked_at("c", 100).is_ok());
    assert_eq!(store.rotation_due_at(101).len(), 1);
    assert!(matches!(store.get_checked_at("nope", 0), Err(SecretError::NotFound(_))));
}

#[test]
fn base64_exact_values() {
    assert_eq!(encode_value(""), "");
    assert_eq!(encode_value("f"), "Zg==");
    assert_eq!(encode_value("fo"), "Zm8=");
    assert_eq!(encode_value("foo"), "Zm9v");
    assert_eq!(encode_value("hello"), "aGVsbG8=");
    assert_eq!(encode_value("ciphertext"), "Y2lwaGVydGV4dA==");
    assert_eq!(decode_value("Y2lwaGVydGV4dA=="), "ciphertext");
    assert_eq!(decode_value("bm9uY2U="), "nonce");
    // Bytes outside the alphabet are skipped.
    assert_eq!(decode_value("Zm 9v\n"), "foo");
    // Not UTF-8 once decoded: empty.
    assert_eq!(decode_value("/w=="), "");
}

#[test]
fn base64_round_trip() {
    for s in ["", "a", "ab", "abc", "héllo wörld", "🔑 key=value; 123", "line\nbreak"] {
        assert_eq!(decode_value(&encode_value(s)), s);
    }
}

fn text(s: &str) -> ParamValue {
    ParamValue::Text(s.to_string())
}

fn params(name: ParamValue, key: ParamValue, value: ParamValue, new_value: ParamValue) -> SecretParams {
    SecretParams { name, key, value, new_value }
}

#[test]
fn secret_commands_create_get_rotate_delete() {
    let mut store = SecretStore::empty();
    let created = handle_secret_command_at(
        &mut store,
        "secret.create",
        &params(ParamValue::Absent, text("db"), text("hunter2"), ParamValue::Absent),
        10,
    );
    assert!(matches!(created, Ok(SecretReply::Created { ref name }) if name == "db"));
    let entry = store.get("db").expect("stored");
    assert_eq!(entry.encrypted_data, "aHVudGVyMg==");
    assert_eq!((entry.key_version, entry.created_at, entry.rotated_at), (1, 10, 10));

    let got = handle_secret_command_at(&mut store, "secret.get", &params(text("db"), ParamValue::Absent, ParamValue::Absent, ParamValue::Absent), 11);
    assert!(matches!(got, Ok(SecretReply::Value { ref name, ref value }) if name == "db" && value == "hunter2"));

    let dup = handle_secret_command_at(&mut store, "secret.create", &params(text("db"), ParamValue::Absent, text("x"), ParamValue::Absent), 12);
    assert_eq!(dup.err(), Some("secret.create error: secret 'db' already exists".to_string()));

    let rotated = handle_secret_command_at(&mut store, "secret.rotate", &params(text("db"), ParamValue::Absent, text("fallback"), text("new")), 20);
    assert!(matches!(rotated, Ok(SecretReply::Rotated { ref name, key_version: 2 }) if name == "db"));
    let entry = store.get("db").expect("stored");
    assert_eq!(entry.encrypted_data, "bmV3");
    assert_eq!((entry.key_version, entry.created_at, entry.rotated_at), (2, 10, 20));

    let listed = handle_secret_command(&mut store, "secret.list", &params(ParamValue::Absent, ParamValue::Absent, ParamValue::Absent, ParamValue::Absent));
    assert!(matches!(listed, Ok(SecretReply::Names { ref names }) if names == &vec!["db".to_string()]));

    let deleted = handle_secret_command_at(&mut store, "secret.delete", &params(text("db"), ParamValue::Absent, ParamValue::Absent, ParamValue::Absent), 30);
    assert!(matches!(deleted, Ok(SecretReply::Deleted { ref name }) if name == "db"));
    let missing = handle_secret_command_at(&mut store, "secret.get", &params(text("db"), ParamValue::Absent, ParamValue::Absent, ParamValue::Absent), 31);
    assert!(matches!(missing, Ok(SecretReply::NotFound)));
}

#[test]
fn secret_command_errors() {
    let mut store = SecretStore::empty();
    let none = params(ParamValue::Absent, ParamValue::Absent, ParamValue::Absent, ParamValue::Absent);
    assert_eq!(handle_secret_command_at(&mut store, "secret.create", &none, 0).err(), Some("missing 'name'".to_string()));
    let non_string_name = params(ParamValue::Other, text("k"), text("v"), ParamValue::Absent);
    assert_eq!(handle_secret_command_at(&mut store, "secret.create", &non_string_name, 0).err(), Some("missing 'name'".to_string()));
    let no_value = params(text("a"), ParamValue::Absent, ParamValue::Absent, ParamValue::Absent);
    assert_eq!(handle_secret_command_at(&mut store, "secret.create", &no_value, 0).err(), Some("missing 'value'".to_string()));
    assert_eq!(handle_secret_command_at(&mut store, "secret.rotate", &no_value, 0).err(), Some("missing 'new_value'".to_string()));
    let rotate_missing = params(text("a"), ParamValue::Absent, text("v"), ParamValue::Absent);
    assert_eq!(handle_secret_command_at(&mut store, "secret.rotate", &rotate_missing, 0).err(), Some("secret not found".to_string()));
    assert_eq!(handle_secret_command_at(&mut store, "secret.purge", &none, 0).err(), Some("unknown secret command: secret.purge".to_string()));
}
