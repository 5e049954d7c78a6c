use base64::engine::general_purpose::STANDARD as BASE64;
use base64::Engine;
use ed25519_dalek::{Signer, Verifier};
use sha2::{Digest, Sha256};

use ququer_client::crypto::{
    commit_hash, generate_keypair, generate_nonce, public_key_to_spki_base64, sign_bytes,
    SigningKey,
};

fn dalek(bytes: [u8; 32]) -> ed25519_dalek::SigningKey {
    ed25519_dalek::SigningKey::from_bytes(&bytes)
}

#[test]
fn commit_hash_deterministic() {
    let h1 = commit_hash("hello", "nonce123");
    let h2 = commit_hash("hello", "nonce123");
    assert_eq!(h1, h2);
}

#[test]
fn commit_hash_is_64_char_hex() {
    let h = commit_hash("data", "nonce");
    assert_eq!(h.len(), 64);
    assert!(h.chars().all(|c| c.is_ascii_hexdigit()));
}

#[test]
fn commit_hash_matches_protocol() {
    let data = r#"{"action":"rock"}"#;
    let nonce = "test-nonce";
    let expected_input = format!("{}:{}", data, nonce);
    let expected = hex::encode(Sha256::digest(expected_input.as_bytes()));
    assert_eq!(commit_hash(data, nonce), expected);
}

#[test]
fn commit_hash_different_inputs_differ() {
    assert_ne!(commit_hash("a", "n"), commit_hash("b", "n"));
    assert_ne!(commit_hash("a", "n1"), commit_hash("a", "n2"));
}

#[test]
fn commit_hash_known_value() {
    // the commitment to an empty move with an empty nonce is SHA-256 of ":"
    assert_eq!(
        commit_hash("", ""),
        "e7ac0786668e0ff0f02b62bd04f45ff636fd82db63b1104601c975dc005f3a67"
    );
    assert_eq!(commit_hash("ü", "é"), hex::encode(Sha256::digest("ü:é".as_bytes())));
}

#[test]
fn sign_bytes_deterministic() {
    let key = SigningKey::from_bytes(&[1u8; 32]);
    let s1 = sign_bytes(&key, b"msg");
    let s2 = sign_bytes(&key, b"msg");
    assert_eq!(s1, s2);
}

#[test]
fn sign_bytes_is_base64() {
    let key = SigningKey::from_bytes(&[2u8; 32]);
    let sig = sign_bytes(&key, b"hello");
    // base64 decode should succeed and produce 64 bytes (Ed25519 signature)
    let decoded = BASE64.decode(&sig).unwrap();
    assert_eq!(decoded.len(), 64);
    assert_eq!(sig.len(), 88);
}

#[test]
fn sign_bytes_verifiable() {
    let key = SigningKey::from_bytes(&[2u8; 32]);
    let sig_b64 = sign_bytes(&key, b"hello world");
    let sig_bytes = BASE64.decode(&sig_b64).unwrap();
    let sig = ed25519_dalek::Signature::from_bytes(&sig_bytes.try_into().unwrap());
    assert!(dalek([2u8; 32]).verifying_key().verify(b"hello world", &sig).is_ok());
}

#[test]
fn sign_bytes_wrong_message_fails() {
    let key = SigningKey::from_bytes(&[3u8; 32]);
    let sig_b64 = sign_bytes(&key, b"correct");
    let sig_bytes = BASE64.decode(&sig_b64).unwrap();
    let sig = ed25519_dalek::Signature::from_bytes(&sig_bytes.try_into().unwrap());
    assert!(dalek([3u8; 32]).verifying_key().verify(b"wrong", &sig).is_err());
}

#[test]
fn sign_bytes_equals_dalek_signature() {
    let key = SigningKey::from_bytes(&[9u8; 32]);
    let expected = BASE64.encode(dalek([9u8; 32]).sign(b"payload").to_bytes());
    assert_eq!(sign_bytes(&key, b"payload"), expected);
}

#[test]
fn generate_nonce_unique() {
    let n1 = generate_nonce();
    let n2 = generate_nonce();
    assert_ne!(n1, n2);
}

#[test]
fn generate_nonce_is_uuid_format() {
    let n = generate_nonce();
    assert_eq!(n.len(), 36);
    assert_eq!(n.chars().filter(|&c| c == '-').count(), 4);
}

#[test]
fn nonce_is_lowercase_uuid_v4() {
    let n = generate_nonce();
    let chars: Vec<char> = n.chars().collect();
    for (i, c) in chars.iter().enumerate() {
        if [8, 13, 18, 23].contains(&i) {
            assert_eq!(*c, '-');
        } else {
            assert!(c.is_ascii_digit() || ('a'..='f').contains(c));
        }
    }
    assert_eq!(chars[14], '4');
    assert!(['8', '9', 'a', 'b'].contains(&chars[19]));
}

#[test]
fn public_key_spki_base64_format() {
    let key = SigningKey::from_bytes(&[42u8; 32]);
    let spki = public_key_to_spki_base64(&key);
    let decoded = BASE64.decode(&spki).unwrap();
    // SPKI DER for Ed25519: 12 byte prefix + 32 byte key = 44 bytes
    assert_eq!(decoded.len(), 44);
    // Prefix should match Ed25519 SPKI OID
    assert_eq!(
        &decoded[..12],
        &[0x30, 0x2a, 0x30, 0x05, 0x06, 0x03, 0x2b, 0x65, 0x70, 0x03, 0x21, 0x00]
    );
    // Last 32 bytes should be the raw public key
    assert_eq!(&decoded[12..], dalek([42u8; 32]).verifying_key().as_bytes());
}

#[test]
fn key_bytes_roundtrip() {
    let key = SigningKey::from_bytes(&[7u8; 32]);
    assert_eq!(key.to_bytes(), [7u8; 32]);
    assert_eq!(key.verifying_key_bytes(), dalek([7u8; 32]).verifying_key().to_bytes());
}

#[test]
fn generated_keys_differ() {
    let a = generate_keypair();
    let b = generate_keypair();
    assert_ne!(a.to_bytes(), b.to_bytes());
}
