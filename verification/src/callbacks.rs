//! The bridge between the SDK's callbacks and the rest of the library.
//!
//! The SDK calls back on its own thread with no context of the caller's.
//! Everything those callbacks need to find is gathered in one `Registry`:
//! the queue of the active session's discovery notifications, one queue of
//! decoded packets for each device with an open data stream, and the table
//! of the states the devices last reported. The owner of the registry puts
//! it behind a lock and takes the lock for one call at a time.
use crate::datapacket::{decoded, DataPacket, DataPacketView, PacketHeader};
use crate::enums::LidarState;
use crate::error::{ProtocolViolation, UsageError};
use std::collections::HashMap;
use std::collections::VecDeque;
use vstd::prelude::*;

verus! {

broadcast use vstd::std_specs::hash::group_hash_axioms;

/// What a device says of itself when it announces its presence.
#[derive(Debug, Clone, Copy, PartialEq, Eq)]
pub struct BroadcastInfo {
    /// The broadcast code, padded with zero bytes.
    pub broadcast_code: [u8; 16],
    /// The kind of device.
    pub dev_type: u8,
}

/// The registry's tables.
pub struct Registry {
    discovery: Option<VecDeque<BroadcastInfo>>,
    streams: HashMap<u8, VecDeque<DataPacket>>,
    states: HashMap<u8, LidarState>,
}

/// What a `Registry` holds, as plain values.
pub struct RegistryView {
    /// The discovery notifications not yet taken, oldest first; `None`
    /// while no session is active.
    pub discovery: Option<Seq<BroadcastInfo>>,
    /// For each device with an open data stream, the packets not yet taken,
    /// oldest first.
    pub streams: Map<u8, Seq<DataPacketView>>,
    /// The state each device last reported.
    pub states: Map<u8, LidarState>,
}

impl RegistryView {
    /// A registry with no session, no stream and no state.
    pub open spec fn empty() -> RegistryView {
        RegistryView { discovery: None, streams: Map::empty(), states: Map::empty() }
    }

    /// Whether a session is active.
    pub open spec fn session_active(self) -> bool {
        self.discovery is Some
    }

    /// Whether a data stream is open for the device.
    pub open spec fn has_stream(self, identity: u8) -> bool {
        self.streams.contains_key(identity)
    }

    /// The state the table holds for the device: the one it last reported,
    /// or unknown where it has reported none.
    pub open spec fn state_of(self, identity: u8) -> LidarState {
        if self.states.contains_key(identity) {
            self.states[identity]
        } else {
            LidarState::LidarStateUnknown
        }
    }

    /// The registry after a session has opened the discovery queue.
    pub open spec fn with_session(self) -> RegistryView {
        RegistryView { discovery: Some(Seq::empty()), ..self }
    }

    /// The registry after the session has closed.
    pub open spec fn without_session(self) -> RegistryView {
        RegistryView { discovery: None, ..self }
    }

    /// The registry after a discovery notification has been queued.
    pub open spec fn with_broadcast(self, info: BroadcastInfo) -> RegistryView {
        RegistryView { discovery: Some(self.discovery.unwrap().push(info)), ..self }
    }

    /// The registry after the oldest discovery notification has been taken.
    pub open spec fn without_first_broadcast(self) -> RegistryView {
        RegistryView { discovery: Some(self.discovery.unwrap().drop_first()), ..self }
    }

    /// The registry after an empty data stream has been opened for the
    /// device.
    pub open spec fn with_stream(self, identity: u8) -> RegistryView {
        RegistryView { streams: self.streams.insert(identity, Seq::empty()), ..self }
    }

    /// The registry after the device's data stream has been closed.
    pub open spec fn without_stream(self, identity: u8) -> RegistryView {
        RegistryView { streams: self.streams.remove(identity), ..self }
    }

    /// The registry after a packet has been queued on the device's stream.
    pub open spec fn with_packet(self, identity: u8, packet: DataPacketView) -> RegistryView {
        RegistryView {
            streams: self.streams.insert(identity, self.streams[identity].push(packet)),
            ..self
        }
    }

    /// The registry after the oldest packet has been taken off the device's
    /// stream.
    pub open spec fn without_first_packet(self, identity: u8) -> RegistryView {
        RegistryView {
            streams: self.streams.insert(identity, self.streams[identity].drop_first()),
            ..self
        }
    }

    /// The registry after the device has reported a state.
    pub open spec fn with_state(self, identity: u8, state: LidarState) -> RegistryView {
        RegistryView { states: self.states.insert(identity, state), ..self }
    }

    /// A request to open a data stream: rejected, and the registry left as
    /// it was, where the device has one already.
    pub open spec fn register(self, identity: u8) -> (RegistryView, Result<(), UsageError>) {
        if self.has_stream(identity) {
            (self, Err(UsageError::StreamOpen))
        } else {
            (self.with_stream(identity), Ok(()))
        }
    }

    /// A request to open the session: rejected, and the registry left as it
    /// was, where one is active already.
    pub open spec fn open_session(self) -> (RegistryView, Result<(), UsageError>) {
        if self.session_active() {
            (self, Err(UsageError::SessionActive))
        } else {
            (self.with_session(), Ok(()))
        }
    }

    /// A discovery notification: queued and reported as delivered where a
    /// session is active, dropped where none is.
    pub open spec fn on_broadcast(self, info: BroadcastInfo) -> (RegistryView, bool) {
        if self.session_active() {
            (self.with_broadcast(info), true)
        } else {
            (self, false)
        }
    }

    /// A state notification: recorded where the number names a state, a
    /// violation that leaves the table as it was where it names none.
    pub open spec fn on_state(self, identity: u8, state: u32) -> (
        RegistryView,
        Result<(), ProtocolViolation>,
    ) {
        match LidarState::of_code(state) {
            Some(s) => (self.with_state(identity, s), Ok(())),
            None => (self, Err(ProtocolViolation::UnknownState(state))),
        }
    }

    /// A data notification: dropped unread where the device has no open
    /// stream; else decoded, and queued on the stream where it decodes.
    pub open spec fn on_data(self, identity: u8, header: PacketHeader, payload: Seq<u8>, count: nat) -> (
        RegistryView,
        Result<bool, ProtocolViolation>,
    ) {
        if !self.has_stream(identity) {
            (self, Ok(false))
        } else {
            match decoded(header, payload, count) {
                Ok(packet) => (self.with_packet(identity, packet), Ok(true)),
                Err(e) => (self, Err(e)),
            }
        }
    }
}

/// The packets of a queue, each by its view.
pub open spec fn packet_views(queue: Seq<DataPacket>) -> Seq<DataPacketView> {
    queue.map_values(|packet: DataPacket| packet@)
}

impl View for Registry {
    type V = RegistryView;

    closed spec fn view(&self) -> RegistryView {
        RegistryView {
            discovery: match self.discovery {
                Some(queue) => Some(queue@),
                None => None,
            },
            streams: Map::new(
                |identity: u8| self.streams@.contains_key(identity),
                |identity: u8| packet_views(self.streams@[identity]@),
            ),
            states: self.states@,
        }
    }
}

impl Registry {
    /// A registry with no session, no stream and no state.
    pub fn new() -> (registry: Registry)
        ensures
            registry@ == RegistryView::empty(),
    {
        let registry = Registry {
            discovery: None,
            streams: HashMap::new(),
            states: HashMap::new(),
        };
        proof {
            assert(registry@.streams =~= Map::empty());
        }
        registry
    }

    /// Whether a session is active.
    pub fn session_active(&self) -> (active: bool)
        ensures
            active == self@.session_active(),
    {
        self.discovery.is_some()
    }

    /// Opens the discovery queue for a new session. Fails where a session
    /// is active already: the registry serves one at a time.
    pub fn set_discovery_channel(&mut self) -> (res: Result<(), UsageError>)
        ensures
            (final(self)@, res) == old(self)@.open_session(),
    {
        if self.discovery.is_some() {
            return Err(UsageError::SessionActive);
        }
        self.discovery = Some(VecDeque::new());
        proof {
            assert(self@.streams =~= old(self)@.streams);
        }
        Ok(())
    }

    /// Closes the discovery queue, and with it the session. Notifications
    /// still in the queue are dropped.
    pub fn clear_discovery_channel(&mut self)
        ensures
            final(self)@ == old(self)@.without_session(),
    {
        self.discovery = None;
        proof {
            assert(self@.streams =~= old(self)@.streams);
        }
    }

    /// Takes the oldest discovery notification, if one is queued.
    pub fn next_broadcast(&mut self) -> (info: Option<BroadcastInfo>)
        ensures
            match info {
                Some(first) => {
                    &&& old(self)@.discovery is Some
                    &&& old(self)@.discovery.unwrap().len() > 0
                    &&& first == old(self)@.discovery.unwrap()[0]
                    &&& final(self)@ == old(self)@.without_first_broadcast()
                },
                None => {
                    &&& old(self)@.discovery is None || old(self)@.discovery.unwrap().len() == 0
                    &&& final(self)@ == old(self)@
                },
            },
    {
        let taken = self.discovery.take();
        match taken {
            None => {
                proof {
                    assert(self@.streams =~= old(self)@.streams);
                }
                None
            },
            Some(mut queue) => {
                let first = queue.pop_front();
                self.discovery = Some(queue);
                proof {
                    assert(self@.streams =~= old(self)@.streams);
                    if first is Some {
                        assert(queue@ =~= old(self)@.discovery.unwrap().drop_first());
                    }
                }
                first
            },
        }
    }

    /// Whether a data stream is open for the device.
    pub fn has_data_channel(&self, identity: u8) -> (open: bool)
        ensures
            open == self@.has_stream(identity),
    {
        self.streams.contains_key(&identity)
    }

    /// Opens an empty data stream for the device. Fails where the device
    /// has one already, which stays as it is.
    pub fn register_data_channel(&mut self, identity: u8) -> (res: Result<(), UsageError>)
        ensures
            (final(self)@, res) == old(self)@.register(identity),
    {
        if self.streams.contains_key(&identity) {
            return Err(UsageError::StreamOpen);
        }
        self.streams.insert(identity, VecDeque::new());
        proof {
            assert(packet_views(Seq::<DataPacket>::empty()) =~= Seq::<DataPacketView>::empty());
            assert(self@.streams =~= old(self)@.streams.insert(identity, Seq::empty()));
        }
        Ok(())
    }

    /// Closes the device's data stream and drops the packets still in it.
    /// Where the device has none, nothing changes.
    pub fn deregister_data_channel(&mut self, identity: u8)
        ensures
            final(self)@ == old(self)@.without_stream(identity),
    {
        self.streams.remove(&identity);
        proof {
            assert(self@.streams =~= old(self)@.streams.remove(identity));
        }
    }

    /// Takes the oldest packet off the device's data stream. `Ok(None)`
    /// says that none is queued yet.
    pub fn poll_next(&mut self, identity: u8) -> (res: Result<Option<DataPacket>, UsageError>)
        ensures
            match res {
                Err(e) => {
                    &&& !old(self)@.has_stream(identity)
                    &&& e == UsageError::NoStream
                    &&& final(self)@ == old(self)@
                },
                Ok(None) => {
                    &&& old(self)@.has_stream(identity)
                    &&& old(self)@.streams[identity].len() == 0
                    &&& final(self)@ == old(self)@
                },
                Ok(Some(packet)) => {
                    &&& old(self)@.has_stream(identity)
                    &&& old(self)@.streams[identity].len() > 0
                    &&& packet@ == old(self)@.streams[identity][0]
                    &&& final(self)@ == old(self)@.without_first_packet(identity)
                },
            },
    {
        let removed = self.streams.remove(&identity);
        match removed {
            None => {
                proof {
                    assert(self.streams@ =~= old(self).streams@);
                    assert(self@.streams =~= old(self)@.streams);
                }
                Err(UsageError::NoStream)
            },
            Some(mut queue) => {
                let ghost before = queue@;
                let first = queue.pop_front();
                let ghost after = queue@;
                self.streams.insert(identity, queue);
                proof {
                    if first is Some {
                        assert(packet_views(after) =~= packet_views(before).drop_first());
                        assert(self@.streams =~= old(self)@.streams.insert(
                            identity,
                            old(self)@.streams[identity].drop_first(),
                        ));
                    } else {
                        assert(after =~= before);
                        assert(self@.streams =~= old(self)@.streams);
                    }
                }
                Ok(first)
            },
        }
    }

    /// The state the table holds for the device, unknown where it has
    /// reported none.
    pub fn state_of(&self, identity: u8) -> (state: LidarState)
        ensures
            state == self@.state_of(identity),
    {
        match self.states.get(&identity) {
            Some(state) => *state,
            None => LidarState::LidarStateUnknown,
        }
    }

    /// Records a state for the device, over the one it had.
    pub fn set_state(&mut self, identity: u8, state: LidarState)
        ensures
            final(self)@ == old(self)@.with_state(identity, state),
    {
        self.states.insert(identity, state);
        proof {
            assert(self@.streams =~= old(self)@.streams);
        }
    }

    /// Queues a decoded packet on the device's open data stream.
    fn push_packet(&mut self, identity: u8, packet: DataPacket)
        requires
            old(self)@.has_stream(identity),
        ensures
            final(self)@ == old(self)@.with_packet(identity, packet@),
    {
        let removed = self.streams.remove(&identity);
        let mut queue = removed.unwrap();
        let ghost before = queue@;
        queue.push_back(packet);
        let ghost after = queue@;
        self.streams.insert(identity, queue);
        proof {
            assert(packet_views(after) =~= packet_views(before).push(packet@));
            assert(self@.streams =~= old(self)@.streams.insert(
                identity,
                old(self)@.streams[identity].push(packet@),
            ));
        }
    }
}

/// The SDK has heard a device announce itself. The notification is queued
/// for the active session; where no session is active it is dropped. Says
/// whether it was queued.
pub fn broadcast_cb(registry: &mut Registry, devinfo: BroadcastInfo) -> (delivered: bool)
    ensures
        (final(registry)@, delivered) == old(registry)@.on_broadcast(devinfo),
{
    let taken = registry.discovery.take();
    match taken {
        None => {
            proof {
                assert(registry@.streams =~= old(registry)@.streams);
            }
            false
        },
        Some(mut queue) => {
            queue.push_back(devinfo);
            registry.discovery = Some(queue);
            proof {
                assert(registry@.streams =~= old(registry)@.streams);
            }
            true
        },
    }
}

/// The SDK reports that a device has changed state. A number that names a
/// state is recorded in the table; one that names none is a violation, and
/// the table keeps what it had.
pub fn device_state_update_cb(registry: &mut Registry, handle: u8, state: u32) -> (res: Result<
    (),
    ProtocolViolation,
>)
    ensures
        (final(registry)@, res) == old(registry)@.on_state(handle, state),
{
    match LidarState::from_u32(state) {
        Some(known) => {
            registry.set_state(handle, known);
            Ok(())
        },
        None => Err(ProtocolViolation::UnknownState(state)),
    }
}

/// The SDK hands over a packet of `data_size` points from a device. Where
/// the device has no open data stream the packet is dropped unread, which
/// is what happens to the packets that arrive while a stream is closing.
/// Else it is decoded and queued on the stream; a packet that does not
/// decode is a violation and changes nothing. `Ok` says whether the packet
/// was queued.
pub fn data_cb(
    registry: &mut Registry,
    handle: u8,
    header: &PacketHeader,
    payload: &[u8],
    data_size: u32,
) -> (res: Result<bool, ProtocolViolation>)
    ensures
        (final(registry)@, res) == old(registry)@.on_data(
            handle,
            *header,
            payload@,
            data_size as nat,
        ),
{
    if !registry.has_data_channel(handle) {
        return Ok(false);
    }
    match DataPacket::decode(header, payload, data_size) {
        Ok(packet) => {
            registry.push_packet(handle, packet);
            Ok(true)
        },
        Err(e) => Err(e),
    }
}

/// A second registration for a device, with the first still open, is
/// rejected and leaves the registry, the first stream and its packets
/// included, as it was.
pub proof fn lemma_second_registration_rejected(registry: RegistryView, identity: u8)
    ensures
        registry.register(identity).0.has_stream(identity),
        registry.register(identity).0.register(identity) == (
            registry.register(identity).0,
            Err::<(), UsageError>(UsageError::StreamOpen),
        ),
{
}

/// Once a device's data stream is closed, a data notification for the
/// device is dropped: it is no error, it is not even decoded, and it
/// changes nothing.
pub proof fn lemma_data_after_close_is_dropped(
    registry: RegistryView,
    identity: u8,
    header: PacketHeader,
    payload: Seq<u8>,
    count: nat,
)
    ensures
        registry.without_stream(identity).on_data(identity, header, payload, count) == (
            registry.without_stream(identity),
            Ok::<bool, ProtocolViolation>(false),
        ),
{
}

} // verus!
