//! The identifier under which the wallet database files a received note.

use vstd::prelude::*;

use std::sync::Arc;

use crate::txid::ZcashTxId;

verus! {

/// The shielded pool a note belongs to.
#[derive(Clone, Copy, Debug, PartialEq, Eq, Structural)]
pub enum ZcashShieldedProtocol {
    Sapling,
    Orchard,
}

/// A note is identified by the transaction that created it, the shielded pool
/// it was received in, and its output index within that pool's outputs.
pub struct ZcashNoteId {
    pub txid: Arc<ZcashTxId>,
    pub protocol: ZcashShieldedProtocol,
    pub output_index: u16,
}

impl ZcashNoteId {
    /// Assembles a note identifier from its parts.
    pub fn new(txid: Arc<ZcashTxId>, zsp: ZcashShieldedProtocol, output_index: u16) -> (r: Self)
        ensures
            r.txid@ == txid@,
            r.protocol == zsp,
            r.output_index == output_index,
    {
        ZcashNoteId { txid, protocol: zsp, output_index }
    }
}

} // verus!
