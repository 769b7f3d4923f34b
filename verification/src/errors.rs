//! The closed set of protocol failures. Transport failures belong to the
//! caller that owns the byte stream and are not represented here.

use vstd::prelude::*;

verus! {

/// A protocol-level failure.
#[derive(Debug, Clone, Copy, PartialEq, Eq, Structural)]
pub enum Error {
    /// The checksum computed over a received payload does not match the
    /// checksum byte that followed it.
    ChecksumError,
    /// The device answered with an opcode or acknowledge byte other than the
    /// one the exchange requires; carries the offending byte.
    UnexpectedValue(u8),
    /// A register write was requested with more than twelve data bytes; no
    /// bytes are produced for the wire.
    MessageTooLong,
}

} // verus!
