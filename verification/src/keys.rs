//! The transport key pair of a node: its protobuf encoding, the peer identifier it
//! gives, and the text it is shown as.
use vstd::prelude::*;

use libp2p::identity::{DecodingError, Keypair};

use crate::encoding::{crockford_encoding, encode_crockford};
use crate::error::Error;
use crate::network::peer::PeerId;

verus! {

/// `libp2p::identity::DecodingError`, the error of key pair encoding and decoding.
#[verifier::external_type_specification]
#[verifier::external_body]
pub struct ExDecodingError(DecodingError);

/// The text of the peer identifier of the key pair whose protobuf encoding is
/// `encoding`, if it is a valid encoding.
pub uninterp spec fn protobuf_keypair_peer_id(encoding: Seq<u8>) -> Option<Seq<char>>;

/// Calls `Keypair::generate_ed25519` and `to_protobuf_encoding` on the new pair.
/// The bytes are random; the crate's source encodes every Ed25519 pair, so the
/// contract claims success, and that the encoding decodes again to a key pair
/// (the round trip of the crate's `keypair_protobuf_roundtrip_ed25519` test).
#[verifier::external_body]
fn generate_ed25519_encoding() -> (res: Result<Vec<u8>, DecodingError>)
    ensures
        res is Ok,
        res matches Ok(bytes) ==> protobuf_keypair_peer_id(bytes@) is Some,
{
    Keypair::generate_ed25519().to_protobuf_encoding()
}

/// Calls the `Display` of `libp2p::identity::DecodingError`: the error's
/// description. Nothing is claimed of the text.
#[verifier::external_body]
fn decoding_error_text(error: &DecodingError) -> (text: String) {
    error.to_string()
}

/// Calls `Keypair::from_protobuf_encoding` and then `public().to_peer_id()`, and
/// returns the identifier's text; the contract names the outcome as a function
/// of the bytes alone.
#[verifier::external_body]
fn peer_id_of_encoding(encoding: &[u8]) -> (res: Result<String, DecodingError>)
    ensures
        res is Ok <==> protobuf_keypair_peer_id(encoding@) is Some,
        res matches Ok(text) ==> protobuf_keypair_peer_id(encoding@) == Some(text@),
{
    match Keypair::from_protobuf_encoding(encoding) {
        Ok(pair) => Ok(pair.public().to_peer_id().to_string()),
        Err(e) => Err(e),
    }
}

/// A new random Ed25519 key pair in its protobuf encoding; `register_keypair`
/// accepts it.
pub fn generate_keypair() -> (res: Result<Vec<u8>, Error>)
    ensures
        res matches Ok(bytes) && protobuf_keypair_peer_id(bytes@) is Some,
{
    match generate_ed25519_encoding() {
        Ok(bytes) => Ok(bytes),
        Err(e) => Err(Error::KeyEncoding { reason: decoding_error_text(&e) }),
    }
}

/// The peer identifier of the key pair whose protobuf encoding is `keypair`;
/// `InvalidKeypair`, with the decoder's description, when the bytes encode no
/// key pair.
pub fn register_keypair(keypair: &[u8]) -> (res: Result<PeerId, Error>)
    ensures
        match protobuf_keypair_peer_id(keypair@) {
            Some(text) => res matches Ok(peer) && peer@ == text,
            None => res matches Err(Error::InvalidKeypair { .. }),
        },
{
    match peer_id_of_encoding(keypair) {
        Ok(text) => Ok(PeerId::new(text)),
        Err(e) => Err(Error::InvalidKeypair { reason: decoding_error_text(&e) }),
    }
}

/// The text a node shows its Ed25519 key pair as: the Crockford base32 text of the
/// pair's 64 bytes (secret, then public).
pub fn keypair_text(ed25519_keypair: &[u8; 64]) -> (text: String)
    ensures
        text@ == crockford_encoding(ed25519_keypair@),
        text@.len() == 103,
{
    encode_crockford(ed25519_keypair.as_slice())
}

} // verus!
