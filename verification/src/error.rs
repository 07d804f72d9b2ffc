//! The error taxonomy shared by every fallible operation of the library.

use vstd::prelude::*;

verus! {

/// The reason a read of a PE image failed.
///
/// Errors are reported to the caller verbatim; no operation of the library
/// panics on a malformed image.
#[derive(Clone, Copy, Debug, PartialEq, Eq, Structural)]
pub enum Error {
    /// The address was the reserved null sentinel (`0`).
    Null,
    /// The request would read past the blob or past an image boundary.
    OOB,
    /// The address lies in a section's virtual range but beyond its raw
    /// on-disk range; the loader would zero-fill it, the file cannot.
    ZeroFill,
    /// The resolved offset did not satisfy the requested alignment.
    Misalign,
    /// A nul-terminated string had no terminator within reach.
    CStr,
    /// A header field held an unsupported or contradictory value.
    Invalid,
    /// A signature or magic number did not match.
    BadMagic,
    /// The headers state a gross impossibility.
    Insanity,
    /// Arithmetic overflow during an address computation.
    Overflow,
}

} // verus!
