//! How a call failed.

use vstd::prelude::*;

verus! {

/// Why a call did not succeed, as an embedder sees it.
#[derive(Clone, Copy, Debug, PartialEq, Eq, Structural)]
pub enum PunktfunkStatus {
    InvalidArg,
    NullPointer,
    /// Nothing arrived in time.
    NoFrame,
    Timeout,
    /// The session has ended.
    Closed,
    /// The peer is not who it should be.
    Crypto,
    Io,
    /// The peer sent something that cannot be decoded.
    BadPacket,
    /// This build cannot do what was asked.
    Unsupported,
    /// The call panicked.
    Panic,
}

} // verus!
