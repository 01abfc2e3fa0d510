//! Ranges of block heights that remain to be scanned, each with the priority
//! the wallet assigns to it.

use vstd::prelude::*;

use crate::block::ZcashBlockHeight;

verus! {

/// How urgently a range of blocks should be scanned, from ranges to ignore up
/// to ranges that must be re-verified against the main chain.
#[derive(Clone, Copy, Debug, PartialEq, Eq, Structural)]
pub enum ZcashScanRangePriority {
    /// Block ranges that are ignored have lowest priority.
    Ignored,
    /// Block ranges that have already been scanned will not be re-scanned.
    Scanned,
    /// Block ranges to be scanned to advance the fully-scanned height.
    Historic,
    /// Block ranges adjacent to heights at which the user opened the wallet.
    OpenAdjacent,
    /// Blocks to be scanned to complete commitment-tree shards next to found notes.
    FoundNote,
    /// Blocks to be scanned to complete the latest commitment-tree shard.
    ChainTip,
    /// A previously scanned range to be checked against the main chain; highest.
    Verify,
}

/// A half-open range `start .. end` of block heights to scan, with a priority.
/// The start never exceeds the end.
#[derive(Debug)]
pub struct ZcashScanRange {
    start: u32,
    end: u32,
    priority: ZcashScanRangePriority,
}

impl ZcashScanRange {
    /// The first height of the range.
    pub closed spec fn spec_start(&self) -> u32 {
        self.start
    }

    /// The height one past the last of the range.
    pub closed spec fn spec_end(&self) -> u32 {
        self.end
    }

    /// The range's priority.
    pub closed spec fn spec_priority(&self) -> ZcashScanRangePriority {
        self.priority
    }

    #[verifier::type_invariant]
    spec fn order_inv(&self) -> bool {
        self.start <= self.end
    }

    /// Builds the range `start .. end` with the given priority. The start must
    /// not exceed the end.
    pub fn from_parts(
        start: ZcashBlockHeight,
        end: ZcashBlockHeight,
        priority: ZcashScanRangePriority,
    ) -> (r: Self)
        requires
            start.value <= end.value,
        ensures
            r.spec_start() == start.value,
            r.spec_end() == end.value,
            r.spec_priority() == priority,
    {
        ZcashScanRange { start: start.value(), end: end.value(), priority }
    }

    /// The first height of the range.
    pub fn block_range_start(&self) -> (r: ZcashBlockHeight)
        ensures
            r.value == self.spec_start(),
    {
        ZcashBlockHeight::new(self.start)
    }

    /// The height one past the last of the range.
    pub fn block_range_end(&self) -> (r: ZcashBlockHeight)
        ensures
            r.value == self.spec_end(),
    {
        ZcashBlockHeight::new(self.end)
    }

    /// The range's priority.
    pub fn priority(&self) -> (r: ZcashScanRangePriority)
        ensures
            r == self.spec_priority(),
    {
        self.priority
    }

    /// Whether the range covers no heights at all.
    pub fn is_empty(&self) -> (r: bool)
        ensures
            r == (self.spec_start() == self.spec_end()),
    {
        proof {
            use_type_invariant(self);
        }
        self.start == self.end
    }

    /// How many heights the range covers: its end minus its start.
    pub fn len(&self) -> (r: u64)
        ensures
            r == self.spec_end() - self.spec_start(),
    {
        proof {
            use_type_invariant(self);
        }
        (self.end - self.start) as u64
    }
}

} // verus!
