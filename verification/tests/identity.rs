use ed25519_dalek::pkcs8::spki::der::pem::LineEnding;
use ed25519_dalek::pkcs8::EncodePrivateKey;
use filo::device::DeviceId;
use filo::error::Error;
use filo::identify::Identify;
use filo::keys::{generate_keypair, keypair_text, register_keypair};

const SECRET: [u8; 32] = [0xD4, 0xEE, 0x72, 0xDB, 0xF9, 0x13, 0x58, 0x4A, 0xD5, 0xB6, 0xD8, 0xF1, 0xF7, 0x69, 0xF8, 0xAD, 0x3A, 0xFE, 0x7C, 0x28, 0xCB, 0xF1, 0xD4, 0xFB, 0xE0, 0x97, 0xA8, 0x8F, 0x44, 0x75, 0x58, 0x42];
const PUBLIC: [u8; 32] = [0x19, 0xBF, 0x44, 0x09, 0x69, 0x84, 0xCD, 0xFE, 0x85, 0x41, 0xBA, 0xC1, 0x67, 0xDC, 0x3B, 0x96, 0xC8, 0x50, 0x86, 0xAA, 0x30, 0xB6, 0xB6, 0xCB, 0x0C, 0x5C, 0x38, 0xAD, 0x70, 0x31, 0x66, 0xE1];

/// The PKCS#8 PEM text of the RFC 8410 example key, written by ed25519-dalek.
fn example_pem() -> String {
    ed25519_dalek::SigningKey::from_bytes(&SECRET).to_pkcs8_pem(LineEnding::LF).unwrap().to_string()
}

#[test]
fn from_pem_reads_the_secret_key() {
    let id = Identify::from_pem(&example_pem()).unwrap();
    assert_eq!(id.signing_key, SECRET);
    assert_eq!(id.verifying_key(), PUBLIC);
}

#[test]
fn from_pem_rejects_garbage() {
    assert!(matches!(Identify::from_pem("not a key"), Err(Error::InvalidKey { .. })));
    match Identify::from_pem("") {
        Err(Error::InvalidKey { reason }) => assert!(!reason.is_empty()),
        other => panic!("unexpected {:?}", other.map(|i| i.signing_key)),
    }
}

#[test]
fn pem_round_trip_keeps_the_key() {
    let id = Identify::generate();
    let pem = id.to_pem().unwrap();
    assert!(pem.starts_with("-----BEGIN "));
    let back = Identify::from_pem(&pem).unwrap();
    assert_eq!(back.signing_key, id.signing_key);
    assert_eq!(back.verifying_key(), id.verifying_key());
}

#[test]
fn generated_identities_differ() {
    assert_ne!(Identify::generate().signing_key, Identify::generate().signing_key);
}

#[test]
fn verifying_key_matches_ed25519_dalek() {
    let id = Identify::generate();
    let key = ed25519_dalek::SigningKey::from_bytes(&id.signing_key);
    assert_eq!(id.verifying_key(), key.verifying_key().to_bytes());
}

#[test]
fn device_id_of_identity() {
    let id = Identify::from_pem(&example_pem()).unwrap();
    let device = DeviceId::from_verifying_key(&id.verifying_key());
    let expected = base32::encode(base32::Alphabet::Crockford, blake3::hash(&id.verifying_key()).as_bytes());
    assert_eq!(device.0, expected);
}

#[test]
fn generated_keypair_registers() {
    let bytes = generate_keypair().unwrap();
    let peer = register_keypair(&bytes).unwrap();
    let pair = libp2p::identity::Keypair::from_protobuf_encoding(&bytes).unwrap();
    assert_eq!(peer.as_str(), pair.public().to_peer_id().to_string());
}

#[test]
fn register_keypair_rejects_garbage() {
    match register_keypair(&[1, 2, 3]) {
        Err(Error::InvalidKeypair { reason }) => assert!(!reason.is_empty()),
        other => panic!("unexpected {:?}", other),
    }
}

#[test]
fn keypair_text_is_crockford() {
    let bytes: Vec<u8> = (0u8..64).collect();
    let arr: [u8; 64] = bytes.try_into().unwrap();
    let text = keypair_text(&arr);
    assert_eq!(
        text,
        "000G40R40M30E209185GR38E1W8124GK2GAHC5RR34D1P70X3RFJ08924CJ2A9H750MJMASC5MQ2YC1H68SK8D9P6WW3JEHV7GYKWFR"
    );
    assert_eq!(text.len(), 103);
}
