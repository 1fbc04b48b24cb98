//! The error taxonomy of the facade: key parsing, relay registration,
//! publishing and orchestration failures, each a distinguishable kind.
use vstd::prelude::*;

verus! {

/// Every failure the library can report.
#[derive(Clone, Copy, Debug, PartialEq, Eq, Structural)]
pub enum Error {
    /// The secret key text matches neither the hexadecimal nor the
    /// bech32-style encoding.
    InvalidKeyFormat,
    /// The secret key text decodes, but not to exactly 32 bytes.
    InvalidKeyLength,
    /// The decoded 32 bytes do not form a valid scalar for the curve.
    InvalidKeyValue,
    /// A relay URL is malformed or uses an unsupported scheme.
    InvalidRelayUrl,
    /// No relay connected within the warm-up bound.
    NoRelaysReachable,
    /// An event was requested with zero-length content.
    EmptyContent,
    /// The overall deadline elapsed before the operation finished.
    OperationTimedOut,
    /// The event was broadcast, but no relay acknowledged it.
    AllRelaysRejected,
}

} // verus!
