use ququer_client::crypto::{generate_keypair, SigningKey};
use ququer_client::keys::{
    key_from_stored, load_or_generate, public_key_hex, register_request, stored_keys, KeyError,
    StoredKeys,
};

#[test]
fn public_key_hex_format() {
    let key = SigningKey::from_bytes(&[42u8; 32]);
    let hex_str = public_key_hex(&key);
    assert_eq!(hex_str.len(), 64);
    assert!(hex_str.chars().all(|c| c.is_ascii_hexdigit()));
}

#[test]
fn keypair_save_load_roundtrip() {
    let key = SigningKey::from_bytes(&[7u8; 32]);
    let stored = stored_keys(&key, Some("agent-1"));

    let loaded_key = key_from_stored(&stored).unwrap();

    assert_eq!(public_key_hex(&key), public_key_hex(&loaded_key));
    assert_eq!(stored.agent_id, Some("agent-1".to_string()));
}

#[test]
fn stored_keys_are_hex_of_both_halves() {
    let key = SigningKey::from_bytes(&[7u8; 32]);
    let stored = stored_keys(&key, None);
    assert_eq!(stored.secret_key, hex::encode([7u8; 32]));
    let dalek = ed25519_dalek::SigningKey::from_bytes(&[7u8; 32]);
    assert_eq!(stored.public_key, hex::encode(dalek.verifying_key().as_bytes()));
    assert!(stored.agent_id.is_none());
}

#[test]
fn uppercase_secret_loads() {
    let stored = StoredKeys {
        public_key: String::new(),
        secret_key: hex::encode_upper([0xabu8; 32]),
        agent_id: None,
    };
    assert_eq!(key_from_stored(&stored).unwrap().to_bytes(), [0xabu8; 32]);
}

#[test]
fn bad_secrets_are_rejected() {
    let with = |s: &str| StoredKeys {
        public_key: String::new(),
        secret_key: s.to_string(),
        agent_id: None,
    };
    assert!(matches!(key_from_stored(&with("ccdd")), Err(KeyError::InvalidSecretKeyLength)));
    assert!(key_from_stored(&with("ccdd")).err().unwrap().is_length_error());
    assert_eq!(key_from_stored(&with("ccdd")).err().unwrap().message(), "invalid secret key length");
    assert_eq!(key_from_stored(&with("abc")).err().unwrap().message(), "Odd number of digits");
    assert!(matches!(key_from_stored(&with("abc")), Err(KeyError::InvalidHex(_))));
    assert!(matches!(key_from_stored(&with("zz")), Err(KeyError::InvalidHex(_))));
    assert!(matches!(key_from_stored(&with(&"é".repeat(32))), Err(KeyError::InvalidHex(_))));
    assert!(matches!(key_from_stored(&with(&"00".repeat(33))), Err(KeyError::InvalidSecretKeyLength)));
}

#[test]
fn load_or_generate_prefers_saved_key() {
    let key = SigningKey::from_bytes(&[4u8; 32]);
    let (k, fresh) = load_or_generate(Some(key));
    assert_eq!(k.to_bytes(), [4u8; 32]);
    assert!(!fresh);
    let (_, fresh) = load_or_generate(None);
    assert!(fresh);
    let _ = generate_keypair();
}

#[test]
fn registration_sends_hex_public_key() {
    let key = SigningKey::from_bytes(&[8u8; 32]);
    let req = register_request("bot-8", &key);
    assert_eq!(req.name, "bot-8");
    let dalek = ed25519_dalek::SigningKey::from_bytes(&[8u8; 32]);
    assert_eq!(req.public_key, hex::encode(dalek.verifying_key().as_bytes()));
}
