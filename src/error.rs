use vstd::prelude::*;

verus! {

/// Errors reported while reading a logical stream.
#[derive(Debug, Clone, Copy, PartialEq, Eq, Structural)]
pub enum ReadError {
    /// The physical stream ended before the required header packets were found.
    EndOfPhysicalStream,
    /// A header or audio packet was malformed.
    FormatError,
    /// The packet source failed (framing, checksum, I/O).
    ContainerError,
    /// The audio decoder rejected a packet.
    DecodeError,
}

} // verus!
