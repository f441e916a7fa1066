//! The two kinds of failure: protocol violations, which mean that the
//! device or the SDK sent something this library does not understand, and
//! usage errors, which a caller can recover from.
use vstd::prelude::*;

verus! {

/// A fatal fault: the other side broke the protocol. Nothing is ever
/// coerced to a default in its place.
#[derive(Debug, Clone, Copy, PartialEq, Eq, Structural)]
pub enum ProtocolViolation {
    /// The buffer is shorter than a packet header.
    Truncated,
    /// The packet's error code has a bit set besides the PPS status bit.
    /// Carries the error code.
    DeviceError(u32),
    /// The packet's format version is not the supported one. Carries the
    /// version.
    UnsupportedVersion(u8),
    /// The packet's timestamp is not in unsynchronised nanoseconds. Carries
    /// the timestamp type.
    UnsupportedTimestampType(u8),
    /// The packet's data type names no point encoding. Carries the data
    /// type.
    UnknownDataType(u8),
    /// The payload's length is not the point count times the record size.
    LengthMismatch,
    /// A state notification carried a number that names no state. Carries
    /// the number.
    UnknownState(u32),
    /// A discovery notification carried a broadcast code that is no text.
    MalformedBroadcastCode,
}

/// A recoverable error: the request does not fit the current state of the
/// session, which is left as it was.
#[derive(Debug, Clone, Copy, PartialEq, Eq, Structural)]
pub enum UsageError {
    /// A session is already active.
    SessionActive,
    /// A data stream is already open for the device.
    StreamOpen,
    /// No data stream is open for the device.
    NoStream,
    /// No device has announced itself under the broadcast code.
    UnknownDevice,
}

} // verus!
