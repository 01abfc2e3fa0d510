//! The memo attached to a shielded note, as the wallet hands it back.

use vstd::prelude::*;

verus! {

/// An interpreted memo: absent, human-readable text, arbitrary bytes under
/// the convention that marks them as such, or bytes in a format this library
/// does not recognise.
#[derive(Debug)]
pub enum ZcashMemo {
    /// An empty memo.
    Empty,
    /// A memo holding UTF-8 text.
    Text { v: String },
    /// A future-format memo this library does not interpret.
    Future { v: Vec<u8> },
    /// A memo holding arbitrary bytes.
    Arbitrary { v: Vec<u8> },
}

} // verus!
