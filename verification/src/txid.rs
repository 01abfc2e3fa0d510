//! The 32-byte identifier of a transaction.

use vstd::prelude::*;

use crate::bytes_util::clone_bytes;
use crate::error::{ZcashError, ZcashResult};

verus! {

/// A transaction identifier, always 32 bytes.
#[derive(Debug)]
pub struct ZcashTxId {
    bytes: Vec<u8>,
}

impl View for ZcashTxId {
    type V = Seq<u8>;

    closed spec fn view(&self) -> Seq<u8> {
        self.bytes@
    }
}

impl ZcashTxId {
    #[verifier::type_invariant]
    spec fn len_inv(&self) -> bool {
        self.bytes@.len() == 32
    }

    /// Wraps a 32-byte string as a transaction identifier; any other length is
    /// rejected.
    pub fn from_bytes(data: Vec<u8>) -> (r: ZcashResult<Self>)
        ensures
            data@.len() == 32 ==> (r matches Ok(t) && t@ == data@),
            data@.len() != 32 ==> (r matches Err(ZcashError::ArrayLengthMismatch {
                expected,
                got,
            }) && expected == 32 && got == data@.len()),
    {
        if data.len() == 32 {
            Ok(ZcashTxId { bytes: data })
        } else {
            Err(ZcashError::ArrayLengthMismatch { expected: 32, got: data.len() as u64 })
        }
    }

    /// A fresh copy of the identifier's bytes; always 32 of them.
    pub fn to_bytes(&self) -> (r: Vec<u8>)
        ensures
            r@ == self@,
            r@.len() == 32,
    {
        proof {
            use_type_invariant(self);
        }
        clone_bytes(&self.bytes)
    }
}

/// A reference to one transparent output of a transaction: the transaction's
/// hash and the output's index within it.
pub struct ZcashOutPoint {
    hash: Vec<u8>,
    n: u32,
}

impl ZcashOutPoint {
    /// The referenced transaction's hash.
    pub closed spec fn spec_hash(&self) -> Seq<u8> {
        self.hash@
    }

    /// The referenced output's index.
    pub closed spec fn spec_n(&self) -> u32 {
        self.n
    }

    #[verifier::type_invariant]
    spec fn len_inv(&self) -> bool {
        self.hash@.len() == 32
    }

    /// Builds an outpoint from a 32-byte transaction hash and an output
    /// index; any other hash length is rejected.
    pub fn new(hash: Vec<u8>, n: u32) -> (r: ZcashResult<Self>)
        ensures
            hash@.len() == 32 ==> (r matches Ok(o) && o.spec_hash() == hash@ && o.spec_n() == n),
            hash@.len() != 32 ==> (r matches Err(ZcashError::ArrayLengthMismatch {
                expected,
                got,
            }) && expected == 32 && got == hash@.len()),
    {
        if hash.len() == 32 {
            Ok(ZcashOutPoint { hash, n })
        } else {
            Err(ZcashError::ArrayLengthMismatch { expected: 32, got: hash.len() as u64 })
        }
    }

    /// A fresh copy of the referenced transaction's hash; always 32 bytes.
    pub fn hash(&self) -> (r: Vec<u8>)
        ensures
            r@ == self.spec_hash(),
            r@.len() == 32,
    {
        proof {
            use_type_invariant(self);
        }
        clone_bytes(&self.hash)
    }

    /// The referenced output's index.
    pub fn n(&self) -> (r: u32)
        ensures
            r == self.spec_n(),
    {
        self.n
    }
}

} // verus!
