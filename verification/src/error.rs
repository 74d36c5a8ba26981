//! The one failure the constructors can report: a byte sequence of the
//! wrong length handed to a variable-length ingestion path.

use vstd::prelude::*;

verus! {

/// A variable-length byte input did not hold exactly the number of bytes
/// the 16-byte identifier layout requires.
#[derive(Clone, Copy, Debug, PartialEq, Eq, Structural)]
pub struct Error {
    /// The length the constructor required (always 16).
    pub expected: usize,
    /// The length the caller supplied.
    pub actual: usize,
}

} // verus!
