//! The handle under which a wallet database is reached, and the pair types
//! that its queries hand back.
//!
//! The handle itself holds only the filesystem path and the network choice: a
//! fresh engine connection is opened from the path on every call, so nothing
//! else needs to be carried.

use vstd::prelude::*;

use std::sync::Arc;

use zcash_keys::keys::UnifiedSpendingKey;

use crate::account::ZcashAccountId;
use crate::block::{ZcashBlockHash, ZcashBlockHeight};
use crate::consensus::ZcashConsensusParameters;
use crate::error::ZcashResult;

verus! {

/// Declares the engine's spending-key type so a field can hold it; it stays
/// opaque here.
#[verifier::external_type_specification]
#[verifier::external_body]
pub struct ExUnifiedSpendingKey(UnifiedSpendingKey);

/// The spending key for one account, carried through this boundary as the
/// engine value itself: nothing here reads into it.
pub struct ZcashUnifiedSpendingKey {
    pub key: UnifiedSpendingKey,
}

/// A handle for the wallet database stored at a filesystem path.
pub struct ZcashWalletDb {
    pub path: String,
    pub params: ZcashConsensusParameters,
}

impl ZcashWalletDb {
    /// Records the path and network under which the wallet database will be
    /// opened. Never fails: no connection is attempted here.
    pub fn for_path(path: String, params: ZcashConsensusParameters) -> (r: ZcashResult<Self>)
        ensures
            r matches Ok(db) && db.path@ == path@ && db.params == params,
    {
        Ok(ZcashWalletDb { path, params })
    }
}

/// The pair of block heights that bound a spend: the target height for a new
/// transaction and the anchor height from which spendable notes are selected.
pub struct TupleMinAndMaxBlockHeight {
    pub min: Arc<ZcashBlockHeight>,
    pub max: Arc<ZcashBlockHeight>,
}

impl TupleMinAndMaxBlockHeight {
    /// Pairs the two heights.
    pub fn new(min: ZcashBlockHeight, max: ZcashBlockHeight) -> (r: Self)
        ensures
            r.min == min,
            r.max == max,
    {
        TupleMinAndMaxBlockHeight { min: Arc::new(min), max: Arc::new(max) }
    }
}

/// A freshly created account: its ZIP 32 identifier together with the
/// spending key derived for it.
pub struct TupleAccountIdAndUnifiedSpendingKey {
    pub account_id: ZcashAccountId,
    pub unified_spending_key: Arc<ZcashUnifiedSpendingKey>,
}

impl TupleAccountIdAndUnifiedSpendingKey {
    /// Pairs the account identifier with its spending key.
    pub fn new(account_id: ZcashAccountId, key: ZcashUnifiedSpendingKey) -> (r: Self)
        ensures
            r.account_id == account_id,
            r.unified_spending_key == key,
    {
        TupleAccountIdAndUnifiedSpendingKey { account_id, unified_spending_key: Arc::new(key) }
    }
}

/// A block height together with the hash of the block at that height.
pub struct TupleBlockHeightAndHash {
    pub block_height: Arc<ZcashBlockHeight>,
    pub block_hash: Arc<ZcashBlockHash>,
}

impl TupleBlockHeightAndHash {
    /// Pairs the height with the hash.
    pub fn new(block_height: ZcashBlockHeight, block_hash: ZcashBlockHash) -> (r: Self)
        ensures
            r.block_height == block_height,
            r.block_hash@ == block_hash@,
    {
        TupleBlockHeightAndHash {
            block_height: Arc::new(block_height),
            block_hash: Arc::new(block_hash),
        }
    }
}

} // verus!
