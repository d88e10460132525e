//! Ed25519 signing keys, signatures over archive bytes, and their verification
//! against a base64 public key.

use vstd::prelude::*;
use crate::error::{AdeployError, ErrorKind};
use crate::text::{join2, trim_text, trimmed};
use base64::Engine;
use ed25519_dalek::{Signer, Verifier};

verus! {

/// Standard (padded) base64 text of a byte string.
pub uninterp spec fn base64_text(b: Seq<u8>) -> Seq<char>;

/// The bytes that a text decodes to as standard base64, if it is well formed.
pub uninterp spec fn base64_bytes(s: Seq<char>) -> Option<Seq<u8>>;

/// Relies on `base64`'s `STANDARD` engine `encode`: padded base64 of the
/// input, four characters for each started group of three bytes.
#[verifier::external_body]
pub(crate) fn encode_base64(b: &[u8]) -> (r: String)
    ensures
        r@ == base64_text(b@),
        r@.len() == 4 * ((b@.len() + 2) / 3),
{
    base64::engine::general_purpose::STANDARD.encode(b)
}

/// Relies on `base64`'s `STANDARD` engine `decode`: the decoded bytes, or the
/// decoder's error text when the input is not well-formed base64.
#[verifier::external_body]
pub(crate) fn decode_base64(s: &str) -> (r: Result<Vec<u8>, String>)
    ensures
        r is Ok <==> base64_bytes(s@) is Some,
        r is Ok ==> base64_bytes(s@) == Some(r->Ok_0@),
{
    base64::engine::general_purpose::STANDARD.decode(s).map_err(|e| e.to_string())
}

/// The Ed25519 public key (32 bytes) of a 32-byte secret key.
pub uninterp spec fn ed25519_public(secret: Seq<u8>) -> Seq<u8>;

/// The Ed25519 signature (64 bytes) of a message under a 32-byte secret key.
pub uninterp spec fn ed25519_signature(secret: Seq<u8>, msg: Seq<u8>) -> Seq<u8>;

/// Whether a 64-byte signature is valid for a message under a 32-byte public
/// key; `None` when the key bytes are not a point of the curve.
pub uninterp spec fn ed25519_verdict(public: Seq<u8>, msg: Seq<u8>, sig: Seq<u8>) -> Option<bool>;

/// Relies on `ed25519_dalek::SigningKey::generate` over `rand`'s `OsRng`:
/// a fresh secret key of 32 bytes.
#[verifier::external_body]
fn fresh_secret_key() -> (r: Vec<u8>)
    ensures
        r@.len() == 32,
{
    ed25519_dalek::SigningKey::generate(&mut rand::rngs::OsRng).to_bytes().to_vec()
}

/// Relies on `ed25519_dalek::SigningKey::verifying_key`: the public key of a secret key.
#[verifier::external_body]
fn public_key_bytes(secret: &[u8]) -> (r: Vec<u8>)
    requires
        secret@.len() == 32,
    ensures
        r@ == ed25519_public(secret@),
        r@.len() == 32,
{
    let bytes: [u8; 32] = secret.try_into().unwrap();
    ed25519_dalek::SigningKey::from_bytes(&bytes).verifying_key().to_bytes().to_vec()
}

/// Relies on `ed25519_dalek::SigningKey::sign`: the signature of a message.
#[verifier::external_body]
fn sign_bytes(secret: &[u8], msg: &[u8]) -> (r: Vec<u8>)
    requires
        secret@.len() == 32,
    ensures
        r@ == ed25519_signature(secret@, msg@),
        r@.len() == 64,
{
    let bytes: [u8; 32] = secret.try_into().unwrap();
    ed25519_dalek::SigningKey::from_bytes(&bytes).sign(msg).to_bytes().to_vec()
}

/// Relies on `ed25519_dalek::VerifyingKey::from_bytes` and its `verify`: the
/// key's parse error text, or whether the signature holds.
#[verifier::external_body]
fn check_signature(public: &[u8], msg: &[u8], sig: &[u8]) -> (r: Result<bool, String>)
    requires
        public@.len() == 32,
        sig@.len() == 64,
    ensures
        r is Err <==> ed25519_verdict(public@, msg@, sig@) is None,
        r is Ok ==> ed25519_verdict(public@, msg@, sig@) == Some(r->Ok_0),
{
    let key_bytes: [u8; 32] = public.try_into().unwrap();
    let sig_bytes: [u8; 64] = sig.try_into().unwrap();
    match ed25519_dalek::VerifyingKey::from_bytes(&key_bytes) {
        Ok(key) => Ok(key.verify(msg, &ed25519_dalek::Signature::from_bytes(&sig_bytes)).is_ok()),
        Err(e) => Err(e.to_string()),
    }
}

impl Default for Auth {
    fn default() -> (r: Self)
        ensures
            r.key() is None,
    {
        Auth::new()
    }
}

/// A 32-byte Ed25519 secret key.
pub struct SecretKey {
    bytes: Vec<u8>,
}

impl SecretKey {
    #[verifier::type_invariant]
    spec fn inv(self) -> bool {
        self.bytes@.len() == 32
    }

    pub closed spec fn view(self) -> Seq<u8> {
        self.bytes@
    }

    pub fn to_bytes(&self) -> (r: Vec<u8>)
        ensures
            r@ == self.view(),
            r@.len() == 32,
    {
        proof {
            use_type_invariant(self);
        }
        self.bytes.clone()
    }
}

/// A freshly generated key pair: the raw secret key and the base64 public key.
pub struct GeneratedKeyPair {
    pub private_key: Vec<u8>,
    pub public_key: String,
}

/// Ed25519 authentication helper: holds the signing key, if one was loaded.
pub struct Auth {
    keypair: Option<SecretKey>,
}

/// Whether `v` holds the signature of `data` under `key`.
pub open spec fn signed_by(key: Seq<u8>, data: Seq<u8>, v: Seq<u8>) -> bool {
    v == ed25519_signature(key, data)
}

/// The outcome of verifying `sig` over `data` against a base64 public key:
/// `None` where the key is malformed or the signature has the wrong length.
pub open spec fn signature_verdict(public_key_text: Seq<char>, data: Seq<u8>, sig: Seq<u8>) -> Option<bool> {
    match base64_bytes(trimmed(public_key_text)) {
        Some(k) => if k.len() == 32 && sig.len() == 64 {
            ed25519_verdict(k, data, sig)
        } else {
            None
        },
        None => None,
    }
}

impl Auth {
    /// The secret key held, if any.
    pub closed spec fn key(&self) -> Option<Seq<u8>> {
        match self.keypair {
            Some(k) => Some(k.view()),
            None => None,
        }
    }

    pub fn new() -> (r: Self)
        ensures
            r.key() is None,
    {
        Auth { keypair: None }
    }

    /// Samples a fresh key pair: 32 raw secret bytes and the base64 of the
    /// 32 public-key bytes.
    pub fn generate_key_pair() -> (r: GeneratedKeyPair)
        ensures
            r.private_key@.len() == 32,
            r.public_key@ == base64_text(ed25519_public(r.private_key@)),
            r.public_key@.len() == 44,
    {
        let private_key = fresh_secret_key();
        let public = public_key_bytes(private_key.as_slice());
        let public_key = encode_base64(public.as_slice());
        GeneratedKeyPair { private_key, public_key }
    }

    /// Reads a secret key from the raw bytes of a key file: exactly 32 are required.
    pub fn load_key_pair(private_key_bytes: &[u8]) -> (r: Result<SecretKey, AdeployError>)
        ensures
            r is Ok <==> private_key_bytes@.len() == 32,
            r is Ok ==> r->Ok_0.view() == private_key_bytes@,
            r is Err ==> r->Err_0@ == (ErrorKind::Auth, "Invalid private key length"@),
    {
        if private_key_bytes.len() != 32 {
            return Err(AdeployError::Auth(String::from_str("Invalid private key length")));
        }
        let bytes = vstd::slice::slice_to_vec(private_key_bytes);
        Ok(SecretKey { bytes })
    }

    /// The public key as read from its file: the text without surrounding whitespace.
    pub fn load_public_key(contents: &str) -> (r: String)
        ensures
            r@ == trimmed(contents@),
    {
        trim_text(contents)
    }

    pub fn with_key_pair(signing_key: SecretKey) -> (r: Self)
        ensures
            r.key() == Some(signing_key.view()),
    {
        Auth { keypair: Some(signing_key) }
    }

    /// Signs `data` with the held key.
    pub fn sign_data(&self, data: &[u8]) -> (r: Result<Vec<u8>, AdeployError>)
        ensures
            r is Ok <==> self.key() is Some,
            r is Ok ==> signed_by(self.key()->0, data@, r->Ok_0@),
            r is Ok ==> r->Ok_0@.len() == 64,
            r is Err ==> r->Err_0@ == (ErrorKind::Auth, "No keypair available for signing"@),
    {
        match &self.keypair {
            Some(k) => {
                let secret = k.to_bytes();
                Ok(sign_bytes(secret.as_slice(), data))
            },
            None => Err(AdeployError::Auth(String::from_str("No keypair available for signing"))),
        }
    }

    /// Verifies an Ed25519 signature over `data` against a base64 public key.
    /// A signature that does not hold is `Ok(false)`; a malformed key, or a
    /// signature of the wrong length, is an authentication error.
    pub fn verify_signature(public_key_str: &str, data: &[u8], signature_bytes: &[u8]) -> (r: Result<bool, AdeployError>)
        ensures
            r is Ok <==> signature_verdict(public_key_str@, data@, signature_bytes@) is Some,
            r is Ok ==> signature_verdict(public_key_str@, data@, signature_bytes@) == Some(r->Ok_0),
            r is Err ==> r->Err_0@.0 == ErrorKind::Auth,
    {
        let key_text = trim_text(public_key_str);
        let public_key_bytes = match decode_base64(key_text.as_str()) {
            Ok(b) => b,
            Err(e) => {
                return Err(AdeployError::Auth(join2("Failed to decode public key: ", e.as_str())));
            },
        };
        if public_key_bytes.len() != 32 {
            return Err(AdeployError::Auth(String::from_str("Failed to convert public key bytes")));
        }
        if signature_bytes.len() != 64 {
            return Err(AdeployError::Auth(String::from_str("Failed to convert signature bytes")));
        }
        match check_signature(public_key_bytes.as_slice(), data, signature_bytes) {
            Ok(valid) => Ok(valid),
            Err(e) => Err(AdeployError::Auth(join2("Failed to parse public key: ", e.as_str()))),
        }
    }
}

} // verus!
