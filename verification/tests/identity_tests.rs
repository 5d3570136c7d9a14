use clawops::identity::{DeviceIdentity, IdentityError};

#[test]
fn test_generate_identity() {
    let identity = DeviceIdentity::generate();
    assert_eq!(identity.device_id.len(), 64); // SHA-256 hex
    assert_eq!(identity.public_key_raw.len(), 32);
}

#[test]
fn test_sign_consistent() {
    let identity = DeviceIdentity::generate();
    let payload = "test|payload|data";
    let sig1 = identity.sign(payload);
    let sig2 = identity.sign(payload);
    assert_eq!(sig1, sig2);
}

#[test]
fn test_device_params() {
    let identity = DeviceIdentity::generate();
    let params = identity.device_params("c1", "node", "node", &[], None, None);
    assert_eq!(params.id, identity.device_id);
    assert!(!params.signature.is_empty());
    assert!(params.signed_at > 0);
}

// RFC 8032 test vector 1.
const SECRET: [u8; 32] = [
    0x9d, 0x61, 0xb1, 0x9d, 0xef, 0xfd, 0x5a, 0x60, 0xba, 0x84, 0x4a, 0xf4, 0x92, 0xec, 0x2c, 0xc4, 0x44, 0x49,
    0xc5, 0x69, 0x7b, 0x32, 0x69, 0x19, 0x70, 0x3b, 0xac, 0x03, 0x1c, 0xae, 0x7f, 0x60,
];

#[test]
fn identity_known_key() {
    let id = DeviceIdentity::from_secret_key(SECRET);
    assert_eq!(
        id.public_key_raw,
        vec![
            0xd7, 0x5a, 0x98, 0x01, 0x82, 0xb1, 0x0a, 0xb7, 0xd5, 0x4b, 0xfe, 0xd3, 0xc9, 0x64, 0x07, 0x3a, 0x0e,
            0xe1, 0x72, 0xf3, 0xda, 0xa6, 0x23, 0x25, 0xaf, 0x02, 0x1a, 0x68, 0xf7, 0x07, 0x51, 0x1a
        ]
    );
    assert_eq!(id.public_key_base64url(), "11qYAYKxCrfVS_7TyWQHOg7hcvPapiMlrwIaaPcHURo");
    assert_eq!(id.device_id, "21fe31dfa154a261626bf854046fd2271b7bed4b6abe45aa58877ef47f9721b9");
    // Signature of the empty message (RFC 8032), base64url.
    assert_eq!(
        id.sign(""),
        "5VZDAMNgrHKQhuLMgG6CioSHfx645dl02HPgZSJJAVVfuIIVkKM7rMYeOXAc-bRr0lv18FlbviRlUUFDjnoQCw"
    );
}

#[test]
fn identity_payload_and_stored() {
    let id = DeviceIdentity::from_secret_key(SECRET);
    let scopes = vec!["node.read".to_string(), "node.write".to_string()];
    let p1 = id.build_auth_payload("c1", "node", "operator", &scopes, 1700, Some("tok"), None);
    assert_eq!(p1, format!("v1|{}|c1|node|operator|node.read,node.write|1700|tok", id.device_id));
    let p2 = id.build_auth_payload("c1", "node", "operator", &[], 5, None, Some("n0"));
    assert_eq!(p2, format!("v2|{}|c1|node|operator||5||n0", id.device_id));
    let params = id.device_params_at("c1", "node", "operator", &scopes, Some("tok"), None, 1700);
    assert_eq!(params.signature, id.sign(&p1));
    assert_eq!(params.signed_at, 1700);
    assert_eq!(params.nonce, None);

    let secret_b64 = id.secret_key_base64url();
    let back = DeviceIdentity::from_stored(1, &id.device_id, &secret_b64).unwrap();
    assert_eq!(back.device_id, id.device_id);
    assert_eq!(back.public_key_raw, id.public_key_raw);
    assert!(matches!(DeviceIdentity::from_stored(2, &id.device_id, &secret_b64), Err(IdentityError::UnsupportedVersion(2))));
    assert!(matches!(DeviceIdentity::from_stored(1, &id.device_id, "!!"), Err(IdentityError::SecretKeyEncoding)));
    assert!(matches!(DeviceIdentity::from_stored(1, &id.device_id, "AAAA"), Err(IdentityError::SecretKeyLength)));
    assert!(matches!(DeviceIdentity::from_stored(1, "abc", &secret_b64), Err(IdentityError::DeviceIdMismatch)));
}
