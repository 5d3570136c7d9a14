use clawops::persist::JsonStore;

#[test]
fn json_store_path_layout() {
    let store = JsonStore::new("/var/lib/clawnode", "secrets");
    assert_eq!(store.path(), "/var/lib/clawnode/state/secrets.json");
    let store = JsonStore::new("/tmp/x/", "audit_log");
    assert_eq!(store.path(), "/tmp/x/state/audit_log.json");
}

fn rec(id: &str) -> clawops::persist::VpsInstanceRecord {
    clawops::persist::VpsInstanceRecord {
        instance_id: id.to_string(),
        provider: "hetzner".to_string(),
        region: "eu".to_string(),
        tier: "small".to_string(),
        role: "primary".to_string(),
        state: "active".to_string(),
        ip_public: None,
        ip_tailscale: None,
        provider_instance_id: None,
        account_id: "acct".to_string(),
        provisioned_at: "2024-01-01T00:00:00Z".to_string(),
    }
}

#[test]
fn vps_store_remove_is_idempotent_and_keeps_others() {
    let mut store = clawops::persist::VpsInstanceStore::new(vec![rec("a"), rec("b"), rec("c")]);
    store.remove("b");
    assert!(store.get("b").is_none());
    assert_eq!(store.get("a").map(|r| r.instance_id.as_str()), Some("a"));
    assert_eq!(store.get("c").map(|r| r.instance_id.as_str()), Some("c"));
    let once: Vec<String> = store.list().iter().map(|r| r.instance_id.clone()).collect();
    store.remove("b");
    let twice: Vec<String> = store.list().iter().map(|r| r.instance_id.clone()).collect();
    assert_eq!(once, twice);
    assert_eq!(twice, vec!["a".to_string(), "c".to_string()]);
}
