//! General error kinds surfaced by low-level building blocks such as
//! [`crate::hash::Hash`] construction.

use vstd::prelude::*;

verus! {

/// Error type used by the low-level building blocks.
pub type Error = Kind;

/// Kinds of errors.
#[derive(Clone, Copy, Debug, PartialEq, Eq, Structural)]
pub enum Kind {
    /// Cryptographic operation failed.
    Crypto,
    /// Malformatted or otherwise invalid cryptographic key.
    InvalidKey,
    /// Input/output error.
    Io,
    /// Length incorrect or too long.
    Length,
    /// Parse error.
    Parse,
    /// Network protocol-related errors.
    Protocol,
    /// Value out-of-range.
    OutOfRange,
    /// Signature invalid.
    SignatureInvalid,
}

} // verus!
