//! The Ed25519 identity of this device: its secret key, the public key derived
//! from it, and the PKCS#8 PEM text it is kept in.
use vstd::prelude::*;

use ed25519_dalek::pkcs8::spki::der::pem::LineEnding;
use ed25519_dalek::pkcs8::{DecodePrivateKey, EncodePrivateKey};
use ed25519_dalek::pkcs8::Error as KeyError;
use ed25519_dalek::SigningKey;

use crate::error::Error;

verus! {

/// `ed25519_dalek::pkcs8::Error`, the error of PKCS#8 decoding and encoding.
#[verifier::external_type_specification]
#[verifier::external_body]
pub struct ExKeyError(KeyError);

/// The Ed25519 public key of the secret key `secret`.
pub uninterp spec fn ed25519_public_key(secret: Seq<u8>) -> Seq<u8>;

/// The secret key that the PKCS#8 PEM text `pem` holds, if it holds a valid one.
pub uninterp spec fn pkcs8_pem_secret_key(pem: Seq<char>) -> Option<Seq<u8>>;

/// The PKCS#8 PEM text (LF line endings) of the secret key `secret`.
pub uninterp spec fn pkcs8_pem_text(secret: Seq<u8>) -> Seq<char>;

/// Calls `SigningKey::generate` with the operating system's random number
/// generator and returns the key's 32 secret bytes. Nothing is claimed of them:
/// they are random.
#[verifier::external_body]
fn random_secret_key() -> (secret: [u8; 32]) {
    SigningKey::generate(&mut rand::rngs::OsRng).to_bytes()
}

/// Calls the `Display` of `ed25519_dalek::pkcs8::Error`: the error's description.
/// Nothing is claimed of the text.
#[verifier::external_body]
fn key_error_text(error: &KeyError) -> (text: String) {
    error.to_string()
}

/// Calls `SigningKey::from_bytes(secret).verifying_key()` and returns the public
/// key's 32 bytes; the contract names them as a function of the secret alone.
#[verifier::external_body]
fn public_key_of(secret: &[u8; 32]) -> (public: [u8; 32])
    ensures
        public@ == ed25519_public_key(secret@),
{
    SigningKey::from_bytes(secret).verifying_key().to_bytes()
}

/// Calls `SigningKey::from_pkcs8_pem` and returns the key's secret bytes; the
/// contract names the outcome as a function of the text alone: it succeeds
/// exactly when the name gives a key, and then gives that key.
#[verifier::external_body]
fn decode_pkcs8_pem(pem: &str) -> (res: Result<[u8; 32], KeyError>)
    ensures
        res is Ok <==> pkcs8_pem_secret_key(pem@) is Some,
        res matches Ok(secret) ==> pkcs8_pem_secret_key(pem@) == Some(secret@),
{
    match SigningKey::from_pkcs8_pem(pem) {
        Ok(key) => Ok(key.to_bytes()),
        Err(e) => Err(e),
    }
}

/// Calls `SigningKey::to_pkcs8_pem` with `LineEnding::LF` on the key of `secret`.
/// The contract claims success: the encoder writes a fixed-size message (the
/// 32 secret bytes and the 32 public bytes), whose DER and PEM lengths cannot
/// overflow. It names the text as a function of the secret alone, and claims
/// that the text decodes to the same secret (the key pair bytes written carry the
/// secret and its own public key, which decoding checks and accepts; the crate's
/// `encode_pkcs8` test makes the same round trip).
#[verifier::external_body]
fn encode_pkcs8_pem(secret: &[u8; 32]) -> (res: Result<String, KeyError>)
    ensures
        res is Ok,
        res matches Ok(text) ==> text@ == pkcs8_pem_text(secret@),
        res matches Ok(text) ==> pkcs8_pem_secret_key(text@) == Some(secret@),
{
    match SigningKey::from_bytes(secret).to_pkcs8_pem(LineEnding::LF) {
        Ok(text) => Ok(text.to_string()),
        Err(e) => Err(e),
    }
}

/// The identity of this device.
pub struct Identify {
    /// The 32 secret bytes of the Ed25519 signing key.
    pub signing_key: [u8; 32],
}

impl Identify {
    /// A new identity with a random key.
    pub fn generate() -> (identify: Identify) {
        Identify { signing_key: random_secret_key() }
    }

    /// The identity kept in the PKCS#8 PEM text `pem`; `InvalidKey`, with the
    /// decoder's description, when the text holds no valid Ed25519 private key.
    pub fn from_pem(pem: &str) -> (res: Result<Identify, Error>)
        ensures
            match pkcs8_pem_secret_key(pem@) {
                Some(secret) => res matches Ok(id) && id.signing_key@ == secret,
                None => res matches Err(Error::InvalidKey { .. }),
            },
    {
        match decode_pkcs8_pem(pem) {
            Ok(secret) => Ok(Identify { signing_key: secret }),
            Err(e) => Err(Error::InvalidKey { reason: key_error_text(&e) }),
        }
    }

    /// The PKCS#8 PEM text that keeps this identity; writing it always succeeds,
    /// and the text reads back, with `from_pem`, to this identity.
    pub fn to_pem(&self) -> (res: Result<String, Error>)
        ensures
            res matches Ok(t) && t@ == pkcs8_pem_text(self.signing_key@)
                && pkcs8_pem_secret_key(t@) == Some(self.signing_key@),
    {
        match encode_pkcs8_pem(&self.signing_key) {
            Ok(text) => Ok(text),
            Err(e) => Err(Error::KeyEncoding { reason: key_error_text(&e) }),
        }
    }

    /// The 32 bytes of the public key of this identity.
    pub fn verifying_key(&self) -> (public: [u8; 32])
        ensures
            public@ == ed25519_public_key(self.signing_key@),
    {
        public_key_of(&self.signing_key)
    }
}

} // verus!
