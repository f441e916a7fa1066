//! Communicate with Livox devices from Rust.
//!
//! The crate holds the parts of a Livox session that are pure logic: the
//! lifecycle enumerations, the decoder for point-cloud packets, the registry
//! that bridges the vendor SDK's callbacks to per-device packet queues, and
//! the session's list of the devices that have announced themselves. The
//! calls into the SDK, the lock around the registry and the threads are the
//! embedding program's.
pub mod callbacks;
pub mod datapacket;
pub mod device;
pub mod enums;
pub mod error;
pub mod sdk;
pub mod wire;

pub use callbacks::{BroadcastInfo, Registry};
pub use datapacket::{CartesianPoint, DataPacket, DataPoint, PacketHeader, SphericalPoint};
pub use device::{DataStream, Device};
pub use enums::{CoordinateSystem, LidarMode, LidarState, LidarStateMask};
pub use error::{ProtocolViolation, UsageError};
pub use sdk::Sdk;
