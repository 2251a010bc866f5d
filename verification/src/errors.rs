use vstd::prelude::*;

verus! {

/// Why a boundary input was rejected.
///
/// Malformed inputs are reported through this type instead of being silently
/// replaced by a default value: a caller can always tell a rejected input
/// apart from a genuine cryptographic outcome.
#[derive(Clone, Copy, Debug, PartialEq, Eq, Structural)]
pub enum PqcError {
    /// The input was not a hex string of even length over `[0-9a-fA-F]`.
    InvalidHex,
    /// The input decoded to a byte string of the wrong length for its role.
    WrongLength,
}

} // verus!
