//! The single error type that every fallible operation of this crate returns.
//!
//! The wallet engine's rich error taxonomy is collapsed at this boundary into a
//! message-carrying value, plus the few structured variants that the mirror
//! types themselves produce.

use vstd::prelude::*;

verus! {

/// An error crossing the library boundary.
#[derive(Debug)]
pub enum ZcashError {
    /// An engine-side failure, carrying its formatted message.
    Message { error: String },
    /// A byte string did not have the length that the target type requires.
    ArrayLengthMismatch { expected: u64, got: u64 },
    /// A failure with no further information.
    Unknown,
}

/// The result type of every fallible operation of this crate.
pub type ZcashResult<T> = Result<T, ZcashError>;

} // verus!
