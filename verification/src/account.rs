//! The ZIP 32 account index under which keys are derived.

use vstd::prelude::*;

verus! {

/// A ZIP 32 account identifier: the index of an account under one seed.
#[derive(Clone, Copy, Debug, PartialEq, Eq, Structural)]
pub struct ZcashAccountId {
    pub id: u32,
}

impl ZcashAccountId {
    pub fn new(id: u32) -> (r: Self)
        ensures
            r.id == id,
    {
        ZcashAccountId { id }
    }

    pub fn value(&self) -> (r: u32)
        ensures
            r == self.id,
    {
        self.id
    }
}

} // verus!
