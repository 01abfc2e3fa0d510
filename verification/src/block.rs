//! Mirrors of the chain-level values a wallet handles: block heights, block
//! hashes, and the per-block metadata records kept by the wallet database and
//! by the compact-block cache.

use vstd::prelude::*;

use crate::error::{ZcashError, ZcashResult};

verus! {

/// The height of a block in the chain.
#[derive(Clone, Copy, Debug, PartialEq, Eq, Structural)]
pub struct ZcashBlockHeight {
    pub value: u32,
}

impl ZcashBlockHeight {
    pub fn new(v: u32) -> (r: Self)
        ensures
            r.value == v,
    {
        ZcashBlockHeight { value: v }
    }

    pub fn value(&self) -> (r: u32)
        ensures
            r == self.value,
    {
        self.value
    }
}

/// The double-SHA256 identifier of a block, always 32 bytes.
#[derive(Debug)]
pub struct ZcashBlockHash {
    bytes: Vec<u8>,
}

impl View for ZcashBlockHash {
    type V = Seq<u8>;

    closed spec fn view(&self) -> Seq<u8> {
        self.bytes@
    }
}

impl ZcashBlockHash {
    #[verifier::type_invariant]
    spec fn len_inv(&self) -> bool {
        self.bytes@.len() == 32
    }

    /// Wraps a 32-byte string as a block hash; any other length is rejected.
    pub fn from_slice(bytes: Vec<u8>) -> (r: ZcashResult<Self>)
        ensures
            bytes@.len() == 32 ==> (r matches Ok(h) && h@ == bytes@),
            bytes@.len() != 32 ==> (r matches Err(ZcashError::ArrayLengthMismatch {
                expected,
                got,
            }) && expected == 32 && got == bytes@.len()),
    {
        if bytes.len() == 32 {
            Ok(ZcashBlockHash { bytes })
        } else {
            Err(ZcashError::ArrayLengthMismatch { expected: 32, got: bytes.len() as u64 })
        }
    }

    /// The hash as a byte string; always 32 bytes.
    pub fn bytes(&self) -> (r: &Vec<u8>)
        ensures
            r@ == self@,
            r@.len() == 32,
    {
        proof {
            use_type_invariant(self);
        }
        &self.bytes
    }
}

/// What the wallet database records about a block it has scanned: its height,
/// its hash, and the size of the Sapling note commitment tree as of the end of
/// that block, when known.
pub struct ZcashBlockMetadata {
    pub block_height: ZcashBlockHeight,
    pub block_hash: ZcashBlockHash,
    pub sapling_tree_size: Option<u32>,
}

impl ZcashBlockMetadata {
    /// Assembles a metadata record from its parts.
    pub fn from_parts(
        block_height: ZcashBlockHeight,
        block_hash: ZcashBlockHash,
        sapling_tree_size: Option<u32>,
    ) -> (r: Self)
        ensures
            r.block_height == block_height,
            r.block_hash@ == block_hash@,
            r.sapling_tree_size == sapling_tree_size,
    {
        ZcashBlockMetadata { block_height, block_hash, sapling_tree_size }
    }
}

/// What the compact-block cache records about one downloaded block: where it
/// sits in the chain, when it was mined, and how many shielded elements it
/// carries.
pub struct ZcashBlockMeta {
    pub height: ZcashBlockHeight,
    pub block_hash: ZcashBlockHash,
    pub block_time: u32,
    pub sapling_outputs_count: u32,
    pub orchard_actions_count: u32,
}

/// The root of one completed subtree of the Sapling note commitment tree,
/// together with the height of the block that completed it.
pub struct ZcashCommitmentTreeRoot {
    pub subtree_end_height: ZcashBlockHeight,
    pub root_hash: ZcashBlockHash,
}

impl ZcashCommitmentTreeRoot {
    /// Pairs a subtree root hash (32 bytes) with its end height.
    pub fn from_parts(subtree_end_height: ZcashBlockHeight, root_hash: ZcashBlockHash) -> (r: Self)
        ensures
            r.subtree_end_height == subtree_end_height,
            r.root_hash@ == root_hash@,
    {
        ZcashCommitmentTreeRoot { subtree_end_height, root_hash }
    }
}

} // verus!
