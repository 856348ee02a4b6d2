//! Error kinds reported by the driver.

use vstd::prelude::*;

verus! {

/// Why an operation was rejected.
#[derive(Clone, Copy, Debug, PartialEq, Eq, Structural)]
pub enum ErrorCode {
    /// Another operation has been accepted and its completion is still due.
    Busy,
    /// The write asks for more bytes than fit.
    OversizeWrite,
    /// The character is neither an ASCII digit nor an ASCII letter.
    UnsupportedGlyph,
    /// The operation does not exist on this kind of display (it has no cursor).
    Unsupported,
}

} // verus!
