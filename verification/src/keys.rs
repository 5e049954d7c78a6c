//! The agent's identity: an Ed25519 key pair kept in `keys.json` as
//! hexadecimal text, with the agent id once the agent is registered.

use vstd::prelude::*;
use vstd::utf8::encode_utf8;

use crate::crypto::{ed25519_public_key, generate_keypair, SigningKey};
use crate::encoding::{
    hex_decodable, hex_decode, hex_decoded, hex_encode, hex_lower, is_lower_hex_text,
    lemma_hex_lower_shape, lemma_hex_roundtrip,
};
use crate::text::{join_path, path_join};
use crate::types::RegisterRequest;

verus! {

/// The contents of `keys.json`.
#[derive(Debug, PartialEq, Eq)]
pub struct StoredKeys {
    pub public_key: String,
    pub secret_key: String,
    pub agent_id: Option<String>,
}

/// `keys.json` in the client directory.
pub fn keys_path(dir: &str) -> (p: String)
    ensures
        p@ == path_join(dir@, "keys.json"@),
{
    join_path(dir, "keys.json")
}

/// The public key as lowercase hexadecimal text (64 characters).
pub fn public_key_hex(key: &SigningKey) -> (s: String)
    ensures
        s@ == hex_lower(ed25519_public_key(key@)),
        s@.len() == 64,
        is_lower_hex_text(s@),
{
    let public = key.verifying_key_bytes();
    proof {
        lemma_hex_lower_shape(public@);
    }
    hex_encode(public.as_slice())
}

/// What is saved for a key: both halves in hexadecimal, and the agent id.
pub fn stored_keys(key: &SigningKey, agent_id: Option<&str>) -> (stored: StoredKeys)
    ensures
        stored.public_key@ == hex_lower(ed25519_public_key(key@)),
        stored.secret_key@ == hex_lower(key@),
        match agent_id {
            Some(a) => (stored.agent_id matches Some(s) && s@ == a@),
            None => stored.agent_id is None,
        },
{
    let secret = key.to_bytes();
    StoredKeys {
        public_key: public_key_hex(key),
        secret_key: hex_encode(secret.as_slice()),
        agent_id: match agent_id {
            Some(a) => Some(String::from_str(a)),
            None => None,
        },
    }
}

/// Why saved keys cannot be used.
#[derive(Debug)]
pub enum KeyError {
    /// The secret key is not hexadecimal text.
    InvalidHex(hex::FromHexError),
    /// The secret key does not have 32 bytes.
    InvalidSecretKeyLength,
}

/// The error's own text (`hex::FromHexError`'s `Display`, through
/// `to_string`). Nothing is promised of the text: it is the crate's wording.
#[verifier::external_body]
fn hex_error_text(e: &hex::FromHexError) -> (text: String) {
    e.to_string()
}

impl KeyError {
    /// The message shown to the user: the hexadecimal error's own text, or
    /// that the secret key has the wrong length.
    pub fn message(&self) -> (m: String)
        ensures
            self is InvalidSecretKeyLength ==> m@ == "invalid secret key length"@,
    {
        match self {
            KeyError::InvalidHex(e) => hex_error_text(e),
            KeyError::InvalidSecretKeyLength => String::from_str("invalid secret key length"),
        }
    }

    /// Whether the secret key has the wrong length (rather than not being
    /// hexadecimal).
    pub fn is_length_error(&self) -> (b: bool)
        ensures
            b == (self is InvalidSecretKeyLength),
    {
        match self {
            KeyError::InvalidSecretKeyLength => true,
            KeyError::InvalidHex(_) => false,
        }
    }
}

/// The UTF-8 bytes of the saved secret key, which `hex::decode` reads.
pub open spec fn secret_text_bytes(stored: StoredKeys) -> Seq<u8> {
    encode_utf8(stored.secret_key@)
}

/// The signing key that saved keys hold: the secret key is decoded from
/// hexadecimal and must be 32 bytes long.
pub fn key_from_stored(stored: &StoredKeys) -> (r: Result<SigningKey, KeyError>)
    ensures
        !hex_decodable(secret_text_bytes(*stored)) ==> r matches Err(KeyError::InvalidHex(_)),
        hex_decodable(secret_text_bytes(*stored)) && hex_decoded(secret_text_bytes(*stored)).len()
            != 32 ==> r matches Err(KeyError::InvalidSecretKeyLength),
        hex_decodable(secret_text_bytes(*stored)) && hex_decoded(secret_text_bytes(*stored)).len()
            == 32 ==> (r matches Ok(k) && k@ == hex_decoded(secret_text_bytes(*stored))),
{
    let text = stored.secret_key.as_str().as_bytes();
    match hex_decode(text) {
        Err(e) => Err(KeyError::InvalidHex(e)),
        Ok(bytes) => {
            if bytes.len() != 32 {
                return Err(KeyError::InvalidSecretKeyLength);
            }
            let mut secret: [u8; 32] = [0u8; 32];
            let mut i: usize = 0;
            while i < 32
                invariant
                    i <= 32,
                    bytes@.len() == 32,
                    forall|j: int| 0 <= j < i ==> secret@[j] == bytes@[j],
                decreases 32 - i,
            {
                secret[i] = bytes[i];
                i = i + 1;
            }
            assert(secret@ =~= bytes@);
            Ok(SigningKey::from_bytes(&secret))
        },
    }
}

/// The saved key when there is one, else a fresh random key; the flag says
/// whether the key is fresh (and still has to be saved).
pub fn load_or_generate(loaded: Option<SigningKey>) -> (r: (SigningKey, bool))
    ensures
        match loaded {
            Some(k) => r == (k, false),
            None => r.1 && r.0@.len() == 32,
        },
{
    match loaded {
        Some(k) => (k, false),
        None => (generate_keypair(), true),
    }
}

/// The registration request of a new agent: its name and its public key in
/// hexadecimal.
pub fn register_request(name: &str, key: &SigningKey) -> (req: RegisterRequest)
    ensures
        req.name@ == name@,
        req.public_key@ == hex_lower(ed25519_public_key(key@)),
{
    RegisterRequest { name: String::from_str(name), public_key: public_key_hex(key) }
}

/// Saved keys load back as the key that was saved: the hexadecimal secret
/// decodes to the same 32 bytes.
pub proof fn lemma_saved_secret_loads_back(key: SigningKey, stored: StoredKeys)
    requires
        stored.secret_key@ == hex_lower(key@),
    ensures
        hex_decodable(secret_text_bytes(stored)),
        hex_decoded(secret_text_bytes(stored)) == key@,
        hex_decoded(secret_text_bytes(stored)).len() == 32,
{
    key.lemma_len();
    lemma_hex_roundtrip(key@);
}

} // verus!
