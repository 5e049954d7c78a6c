//! Ed25519 keys and signatures, SHA-256 commitments and nonces of the
//! commit-reveal protocol.

use ed25519_dalek::Signer;
use sha2::Digest;
use vstd::prelude::*;
use vstd::utf8::encode_utf8;

use crate::encoding::{
    base64_encode, base64_len, base64_standard, hex_encode, hex_lower, is_lower_hex_char,
    is_lower_hex_text, lemma_hex_lower_shape,
};

verus! {

/// The SHA-256 digest of a byte string (named, not written out: what
/// `sha2::Sha256::digest` computes).
pub uninterp spec fn sha256(data: Seq<u8>) -> Seq<u8>;

/// The Ed25519 public key that belongs to a 32-byte secret key (what
/// `ed25519_dalek::SigningKey::verifying_key` computes).
pub uninterp spec fn ed25519_public_key(secret: Seq<u8>) -> Seq<u8>;

/// The Ed25519 signature of a message under a 32-byte secret key (what
/// `ed25519_dalek::SigningKey::sign` computes; Ed25519 signing is
/// deterministic).
pub uninterp spec fn ed25519_signature(secret: Seq<u8>, message: Seq<u8>) -> Seq<u8>;

/// `sha2::Sha256::digest`: the 32-byte SHA-256 digest of the input.
#[verifier::external_body]
pub(crate) fn sha256_digest(data: &[u8]) -> (digest: [u8; 32])
    ensures
        digest@ == sha256(data@),
{
    sha2::Sha256::digest(data).into()
}

/// `ed25519_dalek::SigningKey::verifying_key`, on the key made from the given
/// secret bytes: the 32 bytes of the public key.
#[verifier::external_body]
fn ed25519_verifying_key(secret: &[u8; 32]) -> (public: [u8; 32])
    ensures
        public@ == ed25519_public_key(secret@),
{
    ed25519_dalek::SigningKey::from_bytes(secret).verifying_key().to_bytes()
}

/// `ed25519_dalek::SigningKey::sign` (through `Signer`), on the key made from
/// the given secret bytes: the 64 bytes of the signature.
#[verifier::external_body]
fn ed25519_sign(secret: &[u8; 32], message: &[u8]) -> (signature: [u8; 64])
    ensures
        signature@ == ed25519_signature(secret@, message@),
{
    ed25519_dalek::SigningKey::from_bytes(secret).sign(message).to_bytes()
}

/// `ed25519_dalek::SigningKey::generate` with the operating system's random
/// source: the secret bytes of a fresh key. Nothing is promised of them: they
/// are random.
#[verifier::external_body]
fn ed25519_generate_secret() -> (secret: [u8; 32]) {
    ed25519_dalek::SigningKey::generate(&mut rand::rngs::OsRng).to_bytes()
}

/// The text form of a random (version 4) UUID: 36 characters, lowercase
/// hexadecimal digits in groups of 8-4-4-4-12 separated by `-`, with the
/// version digit `4` and a variant digit among `8`, `9`, `a`, `b`.
pub open spec fn is_uuid_v4_text(s: Seq<char>) -> bool {
    &&& s.len() == 36
    &&& forall|i: int|
        0 <= i < 36 ==> (if i == 8 || i == 13 || i == 18 || i == 23 {
            #[trigger] s[i] == '-'
        } else {
            is_lower_hex_char(s[i])
        })
    &&& s[14] == '4'
    &&& (s[19] == '8' || s[19] == '9' || s[19] == 'a' || s[19] == 'b')
}

/// `uuid::Uuid::new_v4` written with `to_string`: a random UUID in its
/// hyphenated lowercase form. Which UUID comes out is left open (it is random);
/// its shape is what the crate's source fixes.
#[verifier::external_body]
fn new_uuid_v4_text() -> (s: String)
    ensures
        is_uuid_v4_text(s@),
{
    uuid::Uuid::new_v4().to_string()
}

/// An Ed25519 signing key, held as its 32 secret bytes.
#[derive(Clone, Copy)]
pub struct SigningKey {
    secret: [u8; 32],
}

impl View for SigningKey {
    type V = Seq<u8>;

    /// The secret bytes.
    closed spec fn view(&self) -> Seq<u8> {
        self.secret@
    }
}

impl SigningKey {
    /// The key with the given secret bytes.
    pub fn from_bytes(bytes: &[u8; 32]) -> (key: SigningKey)
        ensures
            key@ == bytes@,
    {
        SigningKey { secret: *bytes }
    }

    /// The secret bytes of the key.
    pub fn to_bytes(&self) -> (bytes: [u8; 32])
        ensures
            bytes@ == self@,
    {
        self.secret
    }

    /// The 32 bytes of the public key.
    pub fn verifying_key_bytes(&self) -> (public: [u8; 32])
        ensures
            public@ == ed25519_public_key(self@),
            ed25519_public_key(self@).len() == 32,
    {
        ed25519_verifying_key(&self.secret)
    }

    /// The secret is 32 bytes long.
    pub proof fn lemma_len(&self)
        ensures
            self@.len() == 32,
    {
    }
}

/// A fresh random key.
pub fn generate_keypair() -> (key: SigningKey)
    ensures
        key@.len() == 32,
{
    SigningKey { secret: ed25519_generate_secret() }
}

/// A fresh nonce for a commitment: a random UUID in text form.
pub fn generate_nonce() -> (nonce: String)
    ensures
        is_uuid_v4_text(nonce@),
{
    new_uuid_v4_text()
}

/// The bytes that a commitment hashes: the UTF-8 of `data:nonce`.
pub open spec fn commit_preimage(data: Seq<char>, nonce: Seq<char>) -> Seq<u8> {
    encode_utf8(data + seq![':'] + nonce)
}

/// The commitment to `data` with `nonce`: lowercase hexadecimal SHA-256 of the
/// preimage.
pub open spec fn commit_hash_spec(data: Seq<char>, nonce: Seq<char>) -> Seq<char> {
    hex_lower(sha256(commit_preimage(data, nonce)))
}

/// SHA-256 of `data + ":" + nonce`, as lowercase hexadecimal text.
pub fn commit_hash(data: &str, nonce: &str) -> (hash: String)
    ensures
        hash@ == commit_hash_spec(data@, nonce@),
        hash@.len() == 64,
        is_lower_hex_text(hash@),
{
    let mut input = String::from_str(data);
    input.push(':');
    input.append(nonce);
    assert(input@ =~= data@ + seq![':'] + nonce@);
    let digest = sha256_digest(input.as_str().as_bytes());
    proof {
        lemma_hex_lower_shape(digest@);
    }
    hex_encode(digest.as_slice())
}

/// The text of a signature: base64 of the Ed25519 signature bytes.
pub open spec fn signature_text(secret: Seq<u8>, message: Seq<u8>) -> Seq<char> {
    base64_standard(ed25519_signature(secret, message))
}

/// Signs `msg` with `key`; the 64 signature bytes are returned in base64.
pub fn sign_bytes(key: &SigningKey, msg: &[u8]) -> (signature: String)
    ensures
        signature@ == signature_text(key@, msg@),
        ed25519_signature(key@, msg@).len() == 64,
        signature@.len() == 88,
{
    let sig = ed25519_sign(&key.secret, msg);
    assert(base64_len(64) == 88);
    base64_encode(&sig)
}

/// The DER header of an Ed25519 SubjectPublicKeyInfo (RFC 8410): a SEQUENCE
/// of 42 bytes holding the algorithm identifier 1.3.101.112 and a BIT STRING
/// of 33 bytes whose first byte (unused bits) is zero.
pub open spec fn spki_prefix() -> Seq<u8> {
    seq![0x30u8, 0x2a, 0x30, 0x05, 0x06, 0x03, 0x2b, 0x65, 0x70, 0x03, 0x21, 0x00]
}

/// The DER SubjectPublicKeyInfo of an Ed25519 public key.
pub open spec fn spki_der(public: Seq<u8>) -> Seq<u8> {
    spki_prefix() + public
}

/// The public key of `key` as base64 of its SubjectPublicKeyInfo DER.
pub fn public_key_to_spki_base64(key: &SigningKey) -> (text: String)
    ensures
        text@ == base64_standard(spki_der(ed25519_public_key(key@))),
        ed25519_public_key(key@).len() == 32,
        text@.len() == 60,
{
    let public = key.verifying_key_bytes();
    let mut spki: Vec<u8> = vec![0x30, 0x2a, 0x30, 0x05, 0x06, 0x03, 0x2b, 0x65, 0x70, 0x03, 0x21, 0x00];
    let mut i: usize = 0;
    while i < 32
        invariant
            i <= 32,
            spki@ =~= spki_prefix() + public@.subrange(0, i as int),
        decreases 32 - i,
    {
        spki.push(public[i]);
        i = i + 1;
    }
    assert(public@.subrange(0, 32) =~= public@);
    assert(base64_len(44) == 60);
    base64_encode(spki.as_slice())
}

/// The DER lengths of the SubjectPublicKeyInfo agree: the outer SEQUENCE
/// announces the 42 bytes that follow its 2-byte header, the BIT STRING the
/// 33 bytes that follow its header, and the whole is 44 bytes.
pub proof fn lemma_spki_der_lengths(public: Seq<u8>)
    requires
        public.len() == 32,
    ensures
        spki_der(public).len() == 44,
        spki_der(public)[1] as int == spki_der(public).len() - 2,
        spki_der(public)[10] as int == spki_der(public).len() - 11,
        spki_der(public).subrange(12, 44) == public,
{
    assert(spki_der(public).subrange(12, 44) =~= public);
}

} // verus!
