//! Handles on one connected device: the device itself and its data stream.
//!
//! A handle owns no state of its own but the device's identity. What it
//! reads and changes lies in the `Registry`, which the caller hands to each
//! operation.
use crate::callbacks::Registry;
use crate::datapacket::DataPacket;
use crate::enums::{LidarState, LidarStateMask};
use crate::error::UsageError;
use vstd::prelude::*;

verus! {

/// The stream of decoded packets of one device, open from `new` to `close`.
#[derive(Debug)]
pub struct DataStream {
    handle: u8,
}

/// Interface for a single Livox device.
#[derive(Debug)]
pub struct Device {
    handle: u8,
}

impl DataStream {
    /// The identity of the device whose packets the stream carries.
    pub closed spec fn identity(&self) -> u8 {
        self.handle
    }

    /// The identity of the device whose packets the stream carries.
    pub fn handle(&self) -> (handle: u8)
        ensures
            handle == self.identity(),
    {
        self.handle
    }

    /// Opens the data stream of a device by registering an empty queue for
    /// it. Fails where the device has an open stream already, which is left
    /// untouched.
    pub fn new(handle: u8, registry: &mut Registry) -> (res: Result<DataStream, UsageError>)
        ensures
            final(registry)@ == old(registry)@.register(handle).0,
            match res {
                Ok(stream) => old(registry)@.register(handle).1 is Ok && stream.identity()
                    == handle,
                Err(e) => old(registry)@.register(handle).1 == Err::<(), UsageError>(e),
            },
    {
        match registry.register_data_channel(handle) {
            Ok(()) => Ok(DataStream { handle }),
            Err(e) => Err(e),
        }
    }

    /// Takes the next packet if one is queued, and never waits for one:
    /// `Ok(None)` says that none has arrived yet. Packets come out in the
    /// order in which the SDK handed them over.
    pub fn next(&mut self, registry: &mut Registry) -> (res: Result<Option<DataPacket>, UsageError>)
        ensures
            final(self).identity() == old(self).identity(),
            match res {
                Err(e) => {
                    &&& !old(registry)@.has_stream(old(self).identity())
                    &&& e == UsageError::NoStream
                    &&& final(registry)@ == old(registry)@
                },
                Ok(None) => {
                    &&& old(registry)@.has_stream(old(self).identity())
                    &&& old(registry)@.streams[old(self).identity()].len() == 0
                    &&& final(registry)@ == old(registry)@
                },
                Ok(Some(packet)) => {
                    &&& old(registry)@.has_stream(old(self).identity())
                    &&& old(registry)@.streams[old(self).identity()].len() > 0
                    &&& packet@ == old(registry)@.streams[old(self).identity()][0]
                    &&& final(registry)@ == old(registry)@.without_first_packet(
                        old(self).identity(),
                    )
                },
            },
    {
        registry.poll_next(self.handle)
    }

    /// Closes the stream: the device's queue leaves the registry, and the
    /// packets that still arrive for the device are dropped.
    pub fn close(self, registry: &mut Registry)
        ensures
            final(registry)@ == old(registry)@.without_stream(self.identity()),
    {
        registry.deregister_data_channel(self.handle);
    }
}

impl Device {
    /// The identity the SDK gave the device when it was connected.
    pub closed spec fn identity(&self) -> u8 {
        self.handle
    }

    /// The identity the SDK gave the device when it was connected.
    pub fn handle(&self) -> (handle: u8)
        ensures
            handle == self.identity(),
    {
        self.handle
    }

    /// Makes the handle of a freshly connected device and enters the device
    /// in the state table as unknown. Always succeeds.
    pub fn new(handle: u8, registry: &mut Registry) -> (res: Result<Device, ()>)
        ensures
            res is Ok,
            res.unwrap().identity() == handle,
            final(registry)@ == old(registry)@.with_state(handle, LidarState::LidarStateUnknown),
    {
        registry.set_state(handle, LidarState::LidarStateUnknown);
        Ok(Device { handle })
    }

    /// One look at the state table on behalf of a caller that waits for a
    /// state: says whether the state the device last reported is one that
    /// the mask permits, so that the wait is over.
    ///
    /// A caller that blocks calls this in a loop, taking the registry's
    /// lock for each call, and leaves the loop on `true`. The wait has no
    /// timeout: command the change first (see `LidarMode`), or the loop may
    /// never end.
    pub fn wait_for_state(&mut self, registry: &Registry, state_mask: LidarStateMask) -> (reached:
        bool)
        ensures
            final(self).identity() == old(self).identity(),
            reached == state_mask.permits(registry@.state_of(old(self).identity())),
    {
        let state = registry.state_of(self.handle);
        state_mask.matches(state)
    }

    /// Starts sampling: opens the device's data stream. Fails where one is
    /// open already.
    pub fn start_sampling(&mut self, registry: &mut Registry) -> (res: Result<
        DataStream,
        UsageError,
    >)
        ensures
            final(self).identity() == old(self).identity(),
            final(registry)@ == old(registry)@.register(old(self).identity()).0,
            match res {
                Ok(stream) => old(registry)@.register(old(self).identity()).1 is Ok
                    && stream.identity() == old(self).identity(),
                Err(e) => old(registry)@.register(old(self).identity()).1 == Err::<
                    (),
                    UsageError,
                >(e),
            },
    {
        DataStream::new(self.handle, registry)
    }
}

} // verus!
