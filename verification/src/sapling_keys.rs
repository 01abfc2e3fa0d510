//! Sapling viewing keys, modelled by their raw encodings.
//!
//! A diversifiable full viewing key is carried here as its 128-byte raw
//! encoding, validated on entry; the incoming and outgoing viewing keys
//! derived from it are carried as their 32-byte representations. Derivation
//! itself is cryptography that only the wallet engine performs, so it sits
//! behind the trusted wrappers at the bottom of this file; everything a
//! derived value is, is stated over those wrappers' named results.

use vstd::prelude::*;

use std::sync::Arc;

use sapling_crypto::zip32::DiversifiableFullViewingKey;

use crate::bytes_util::clone_bytes;
use crate::error::{ZcashError, ZcashResult};

verus! {

/// The scope a derived key is for: externally visible payments, or internal
/// wallet operations such as change.
#[derive(Clone, Copy, Debug, PartialEq, Eq, Structural)]
pub enum ZcashScope {
    External,
    Internal,
}

/// Whether `b` is a valid raw encoding of a key: the 128 byte strings from
/// which `DiversifiableFullViewingKey::from_bytes` yields a key. A pure
/// function of the 128 bytes.
pub uninterp spec fn dfvk_parses(b: Seq<u8>) -> bool;

/// The 128-byte raw encoding that
/// `DiversifiableFullViewingKey::to_bytes` writes for `key`. A pure function
/// of the key.
pub uninterp spec fn dfvk_enc(key: &DiversifiableFullViewingKey) -> Seq<u8>;

/// The 32-byte representation of the Sapling incoming viewing key that
/// `DiversifiableFullViewingKey::to_ivk` derives from the key encoded by `b`,
/// for the external scope when `external` is true and the internal scope
/// otherwise. A pure function of its arguments.
pub uninterp spec fn dfvk_ivk(b: Seq<u8>, external: bool) -> Seq<u8>;

/// The 32 bytes of the Sapling outgoing viewing key that
/// `DiversifiableFullViewingKey::to_ovk` derives from the key encoded by `b`,
/// for the external scope when `external` is true and the internal scope
/// otherwise. A pure function of its arguments.
pub uninterp spec fn dfvk_ovk(b: Seq<u8>, external: bool) -> Seq<u8>;

/// A Sapling key that provides the capability to view incoming and outgoing
/// transactions without the ability to spend. Held as its validated 128-byte
/// raw encoding.
#[derive(Debug)]
pub struct ZcashDiversifiableFullViewingKey {
    enc: Vec<u8>,
}

impl View for ZcashDiversifiableFullViewingKey {
    type V = Seq<u8>;

    closed spec fn view(&self) -> Seq<u8> {
        self.enc@
    }
}

impl ZcashDiversifiableFullViewingKey {
    #[verifier::type_invariant]
    spec fn enc_inv(&self) -> bool {
        self.enc@.len() == 128 && dfvk_parses(self.enc@)
    }

    /// Parses a key from its raw byte encoding: exactly 128 bytes that the
    /// engine accepts as a valid encoding. A wrong length is reported as such;
    /// 128 bytes that do not encode a valid key give `ZcashError::Unknown`.
    pub fn from_bytes(bytes: Vec<u8>) -> (r: ZcashResult<Self>)
        ensures
            bytes@.len() != 128 ==> (r matches Err(ZcashError::ArrayLengthMismatch {
                expected,
                got,
            }) && expected == 128 && got == bytes@.len()),
            bytes@.len() == 128 && dfvk_parses(bytes@) ==> (r matches Ok(k) && k@ == bytes@),
            bytes@.len() == 128 && !dfvk_parses(bytes@) ==> r matches Err(ZcashError::Unknown),
    {
        if bytes.len() != 128 {
            return Err(ZcashError::ArrayLengthMismatch { expected: 128, got: bytes.len() as u64 });
        }
        if dfvk_try_parse(&bytes) {
            Ok(ZcashDiversifiableFullViewingKey { enc: bytes })
        } else {
            Err(ZcashError::Unknown)
        }
    }

    /// Wraps a key the engine already holds, by way of its raw encoding.
    pub fn from_key(key: &DiversifiableFullViewingKey) -> (r: Self)
        ensures
            r@ == dfvk_enc(key),
            r@.len() == 128,
            dfvk_parses(r@),
    {
        ZcashDiversifiableFullViewingKey { enc: dfvk_encode_key(key) }
    }

    /// The raw encoding of this key: 128 bytes that parse back to this very
    /// key.
    pub fn to_bytes(&self) -> (r: Vec<u8>)
        ensures
            r@ == self@,
            r@.len() == 128,
            dfvk_parses(r@),
    {
        proof {
            use_type_invariant(self);
        }
        clone_bytes(&self.enc)
    }

    /// Derives the incoming viewing key for the given scope.
    pub fn to_ivk(&self, scope: ZcashScope) -> (r: Arc<ZcashSaplingIvk>)
        ensures
            r@ == dfvk_ivk(self@, scope is External),
    {
        proof {
            use_type_invariant(self);
        }
        let external = match scope {
            ZcashScope::External => true,
            ZcashScope::Internal => false,
        };
        Arc::new(ZcashSaplingIvk { repr: dfvk_derive_ivk(&self.enc, external) })
    }

    /// Derives the outgoing viewing key for the given scope.
    pub fn to_ovk(&self, scope: ZcashScope) -> (r: Arc<ZcashOutgoingViewingKey>)
        ensures
            r@ == dfvk_ovk(self@, scope is External),
    {
        proof {
            use_type_invariant(self);
        }
        let external = match scope {
            ZcashScope::External => true,
            ZcashScope::Internal => false,
        };
        Arc::new(ZcashOutgoingViewingKey { bytes: dfvk_derive_ovk(&self.enc, external) })
    }
}

/// A Sapling incoming viewing key, held as its 32-byte representation.
#[derive(Debug)]
pub struct ZcashSaplingIvk {
    repr: Vec<u8>,
}

impl View for ZcashSaplingIvk {
    type V = Seq<u8>;

    closed spec fn view(&self) -> Seq<u8> {
        self.repr@
    }
}

impl ZcashSaplingIvk {
    #[verifier::type_invariant]
    spec fn len_inv(&self) -> bool {
        self.repr@.len() == 32
    }

    /// The key's 32-byte representation.
    pub fn to_repr(&self) -> (r: Vec<u8>)
        ensures
            r@ == self@,
            r@.len() == 32,
    {
        proof {
            use_type_invariant(self);
        }
        clone_bytes(&self.repr)
    }
}

/// A Sapling outgoing viewing key: 32 bytes.
#[derive(Debug)]
pub struct ZcashOutgoingViewingKey {
    bytes: Vec<u8>,
}

impl View for ZcashOutgoingViewingKey {
    type V = Seq<u8>;

    closed spec fn view(&self) -> Seq<u8> {
        self.bytes@
    }
}

impl ZcashOutgoingViewingKey {
    #[verifier::type_invariant]
    spec fn len_inv(&self) -> bool {
        self.bytes@.len() == 32
    }

    /// The key's 32 bytes.
    pub fn to_bytes(&self) -> (r: Vec<u8>)
        ensures
            r@ == self@,
            r@.len() == 32,
    {
        proof {
            use_type_invariant(self);
        }
        clone_bytes(&self.bytes)
    }
}

/// Declares the engine's key type so the wrappers below can take it; it stays
/// opaque here.
#[verifier::external_type_specification]
#[verifier::external_body]
pub struct ExDiversifiableFullViewingKey(DiversifiableFullViewingKey);

/// Relies on `sapling_crypto::zip32::DiversifiableFullViewingKey::from_bytes`:
/// whether 128 bytes are a valid raw key encoding depends on those bytes
/// alone. That call panics, rather than returning `None`, when the leading 32
/// bytes (the spend validating key) are not a canonical curve-point encoding,
/// so `jubjub::AffinePoint::from_bytes` screens them first; bytes it rejects
/// encode no key.
#[verifier::external_body]
fn dfvk_try_parse(bytes: &Vec<u8>) -> (r: bool)
    requires
        bytes@.len() == 128,
    ensures
        r == dfvk_parses(bytes@),
{
    let ak: [u8; 32] = bytes[0..32].try_into().unwrap();
    if bool::from(jubjub::AffinePoint::from_bytes(ak).is_none()) {
        return false;
    }
    let arr: [u8; 128] = bytes.as_slice().try_into().unwrap();
    DiversifiableFullViewingKey::from_bytes(&arr).is_some()
}

/// Relies on `sapling_crypto::zip32::DiversifiableFullViewingKey::to_bytes`:
/// the encoding it writes is a function of the key alone, its components are
/// written in their canonical encodings, and `from_bytes` accepts the result
/// back.
#[verifier::external_body]
fn dfvk_encode_key(key: &DiversifiableFullViewingKey) -> (r: Vec<u8>)
    ensures
        r@ == dfvk_enc(key),
        r@.len() == 128,
        dfvk_parses(r@),
{
    key.to_bytes().to_vec()
}

/// Relies on `sapling_crypto::zip32::DiversifiableFullViewingKey::to_ivk` and
/// `sapling_crypto::keys::SaplingIvk::to_repr`: the derived key's
/// representation is a function of the key encoding and the scope alone. The
/// key is recovered from its encoding with `from_bytes`, which accepts every
/// encoding this function's precondition admits.
#[verifier::external_body]
fn dfvk_derive_ivk(enc: &Vec<u8>, external: bool) -> (r: Vec<u8>)
    requires
        enc@.len() == 128,
        dfvk_parses(enc@),
    ensures
        r@ == dfvk_ivk(enc@, external),
        r@.len() == 32,
{
    let arr: [u8; 128] = enc.as_slice().try_into().unwrap();
    let key = DiversifiableFullViewingKey::from_bytes(&arr).unwrap();
    let scope = if external { zip32::Scope::External } else { zip32::Scope::Internal };
    key.to_ivk(scope).to_repr().to_vec()
}

/// Relies on `sapling_crypto::zip32::DiversifiableFullViewingKey::to_ovk`: the
/// derived key's 32 bytes are a function of the key encoding and the scope
/// alone. The key is recovered from its encoding with `from_bytes`, which
/// accepts every encoding this function's precondition admits.
#[verifier::external_body]
fn dfvk_derive_ovk(enc: &Vec<u8>, external: bool) -> (r: Vec<u8>)
    requires
        enc@.len() == 128,
        dfvk_parses(enc@),
    ensures
        r@ == dfvk_ovk(enc@, external),
        r@.len() == 32,
{
    let arr: [u8; 128] = enc.as_slice().try_into().unwrap();
    let key = DiversifiableFullViewingKey::from_bytes(&arr).unwrap();
    let scope = if external { zip32::Scope::External } else { zip32::Scope::Internal };
    key.to_ovk(scope).0.to_vec()
}

} // verus!
