//! The Sapling key adapter, exercised against the wallet engine itself.

use sapling_crypto::zip32::{DiversifiableFullViewingKey, ExtendedSpendingKey};
use zip32::Scope;

use zcash_ffi::error::ZcashError;
use zcash_ffi::sapling_keys::{ZcashDiversifiableFullViewingKey, ZcashScope};

fn engine_key(seed: &[u8]) -> DiversifiableFullViewingKey {
    ExtendedSpendingKey::master(seed).to_diversifiable_full_viewing_key()
}

#[test]
fn dfvk_to_bytes_matches_engine_encoding() {
    let key = engine_key(&[1u8; 32]);
    let lib = ZcashDiversifiableFullViewingKey::from_key(&key);
    assert_eq!(lib.to_bytes(), key.to_bytes().to_vec());
}

#[test]
fn dfvk_from_bytes_round_trips() {
    let key = engine_key(&[2u8; 32]);
    let enc = key.to_bytes().to_vec();
    let lib = ZcashDiversifiableFullViewingKey::from_bytes(enc.clone()).expect("valid encoding");
    assert_eq!(lib.to_bytes(), enc);
}

#[test]
fn dfvk_from_bytes_rejects_wrong_length() {
    let r = ZcashDiversifiableFullViewingKey::from_bytes(vec![0u8; 127]);
    match r {
        Err(ZcashError::ArrayLengthMismatch { expected, got }) => {
            assert_eq!(expected, 128);
            assert_eq!(got, 127);
        }
        _ => panic!("length 127 must be rejected as a length mismatch"),
    }
}

#[test]
fn dfvk_from_bytes_rejects_invalid_encoding() {
    let bytes = [0u8; 128];
    assert!(DiversifiableFullViewingKey::from_bytes(&bytes).is_none());
    let r = ZcashDiversifiableFullViewingKey::from_bytes(bytes.to_vec());
    assert!(matches!(r, Err(ZcashError::Unknown)));
}

#[test]
fn dfvk_from_bytes_rejects_noncanonical_point_bytes() {
    // All-ones bytes are not a canonical curve-point encoding for the leading
    // key component; the decoder must reject the string rather than abort.
    assert!(bool::from(jubjub::AffinePoint::from_bytes([0xffu8; 32]).is_none()));
    let r = ZcashDiversifiableFullViewingKey::from_bytes(vec![0xffu8; 128]);
    assert!(matches!(r, Err(ZcashError::Unknown)));
}

#[test]
fn dfvk_ivk_matches_engine_derivation() {
    let key = engine_key(&[3u8; 32]);
    let lib = ZcashDiversifiableFullViewingKey::from_key(&key);
    let external = lib.to_ivk(ZcashScope::External).to_repr();
    let internal = lib.to_ivk(ZcashScope::Internal).to_repr();
    assert_eq!(external, key.to_ivk(Scope::External).to_repr().to_vec());
    assert_eq!(internal, key.to_ivk(Scope::Internal).to_repr().to_vec());
    assert_ne!(external, internal);
}

#[test]
fn dfvk_ovk_matches_engine_derivation() {
    let key = engine_key(&[4u8; 32]);
    let lib = ZcashDiversifiableFullViewingKey::from_key(&key);
    let external = lib.to_ovk(ZcashScope::External).to_bytes();
    let internal = lib.to_ovk(ZcashScope::Internal).to_bytes();
    assert_eq!(external, key.to_ovk(Scope::External).0.to_vec());
    assert_eq!(internal, key.to_ovk(Scope::Internal).0.to_vec());
    assert_ne!(external, internal);
}
