//! The session: the devices that have announced themselves, and the way
//! from an announcement to a connected `Device`.
use crate::callbacks::{BroadcastInfo, Registry};
use crate::device::Device;
use crate::enums::LidarState;
use crate::error::{ProtocolViolation, UsageError};
use vstd::prelude::*;
use vstd::utf8::{decode_utf8, valid_utf8};

verus! {

/// The text of a broadcast code: its sixteen bytes read as UTF-8, padding
/// included; `None` where they are no UTF-8.
pub open spec fn code_text(code: [u8; 16]) -> Option<Seq<char>> {
    if valid_utf8(code@) {
        Some(decode_utf8(code@))
    } else {
        None
    }
}

/// `String::from_utf8`: the string that the bytes encode in UTF-8, or
/// nothing where they are no valid UTF-8. The outside error, which only
/// hands the bytes back, is dropped.
#[verifier::external_body]
fn string_from_utf8(bytes: Vec<u8>) -> (text: Option<String>)
    ensures
        match text {
            Some(s) => valid_utf8(bytes@) && s@ == decode_utf8(bytes@),
            None => !valid_utf8(bytes@),
        },
{
    match String::from_utf8(bytes) {
        Ok(s) => Some(s),
        Err(_) => None,
    }
}

/// Reads a broadcast code as text.
pub fn broadcast_code_to_string(code: &[u8; 16]) -> (text: Option<String>)
    ensures
        match text {
            Some(s) => code_text(*code) == Some(s@),
            None => code_text(*code) is None,
        },
{
    let mut bytes: Vec<u8> = Vec::new();
    let mut i: usize = 0;
    while i < 16
        invariant
            i <= 16,
            bytes@ == code@.subrange(0, i as int),
        decreases 16 - i,
    {
        bytes.push(code[i]);
        proof {
            assert(bytes@ =~= code@.subrange(0, i + 1));
        }
        i = i + 1;
    }
    proof {
        assert(bytes@ =~= code@);
    }
    string_from_utf8(bytes)
}

/// What the session knows of one device: its code, and whether it has been
/// connected.
pub struct DeviceRecord {
    pub code: Seq<char>,
    pub connected: bool,
}

/// What a session holds, as plain values: one record for each device that
/// has announced itself, in the order of their first announcements.
pub struct SdkView {
    pub devices: Seq<DeviceRecord>,
}

/// The codes of the records that are not connected, in the records' order.
pub open spec fn unconnected_codes(devices: Seq<DeviceRecord>) -> Seq<Seq<char>>
    decreases devices.len(),
{
    if devices.len() == 0 {
        Seq::empty()
    } else if devices.last().connected {
        unconnected_codes(devices.drop_last())
    } else {
        unconnected_codes(devices.drop_last()).push(devices.last().code)
    }
}

impl SdkView {
    /// No two records have the same code.
    pub open spec fn wf(self) -> bool {
        forall|i: int, j: int|
            0 <= i < j < self.devices.len() ==> (#[trigger] self.devices[i]).code != (
            #[trigger] self.devices[j]).code
    }

    /// Whether the device has announced itself.
    pub open spec fn knows(self, code: Seq<char>) -> bool {
        exists|i: int| 0 <= i < self.devices.len() && (#[trigger] self.devices[i]).code == code
    }

    /// Whether the device has been connected.
    pub open spec fn is_connected(self, code: Seq<char>) -> bool {
        exists|i: int|
            0 <= i < self.devices.len() && (#[trigger] self.devices[i]).code == code
                && self.devices[i].connected
    }

    /// The known devices: the codes that have announced themselves and are
    /// not connected, in the order of their first announcements.
    pub open spec fn listed(self) -> Seq<Seq<char>> {
        unconnected_codes(self.devices)
    }

    /// The session after a device has announced itself: a device that is
    /// known keeps its record, a new one gets an unconnected record at the
    /// end.
    pub open spec fn observe(self, code: Seq<char>) -> SdkView {
        if self.knows(code) {
            self
        } else {
            SdkView { devices: self.devices.push(DeviceRecord { code, connected: false }) }
        }
    }

    /// The session after the device has been connected: each record of that
    /// code is marked, the others are as they were.
    pub open spec fn connect(self, code: Seq<char>) -> SdkView {
        SdkView {
            devices: Seq::new(
                self.devices.len(),
                |i: int|
                    if self.devices[i].code == code {
                        DeviceRecord { code, connected: true }
                    } else {
                        self.devices[i]
                    },
            ),
        }
    }
}

/// The record of one device.
struct KnownDevice {
    code: String,
    connected: bool,
}

impl View for KnownDevice {
    type V = DeviceRecord;

    closed spec fn view(&self) -> DeviceRecord {
        DeviceRecord { code: self.code@, connected: self.connected }
    }
}

/// A session with the SDK.
pub struct Sdk {
    known_devices: Vec<KnownDevice>,
}

impl View for Sdk {
    type V = SdkView;

    closed spec fn view(&self) -> SdkView {
        SdkView { devices: self.known_devices@.map_values(|device: KnownDevice| device@) }
    }
}

impl Sdk {
    /// Opens a session on the registry. Fails where the registry has an
    /// active session already; that one must be closed first.
    pub fn new(registry: &mut Registry) -> (res: Result<Sdk, UsageError>)
        ensures
            final(registry)@ == old(registry)@.open_session().0,
            match res {
                Ok(sdk) => old(registry)@.open_session().1 is Ok && sdk@.devices.len() == 0
                    && sdk@.wf(),
                Err(e) => old(registry)@.open_session().1 == Err::<(), UsageError>(e),
            },
    {
        match registry.set_discovery_channel() {
            Ok(()) => Ok(Sdk { known_devices: Vec::new() }),
            Err(e) => Err(e),
        }
    }

    /// The index of the record with the given code, if there is one.
    fn find(&self, code: &String) -> (at: Option<usize>)
        ensures
            match at {
                Some(i) => i < self@.devices.len() && self@.devices[i as int].code == code@,
                None => !self@.knows(code@),
            },
    {
        let mut i: usize = 0;
        while i < self.known_devices.len()
            invariant
                i <= self.known_devices.len(),
                self@.devices.len() == self.known_devices.len(),
                forall|k: int| 0 <= k < i ==> (#[trigger] self@.devices[k]).code != code@,
            decreases self.known_devices.len() - i,
        {
            if self.known_devices[i].code == *code {
                return Some(i);
            }
            i = i + 1;
        }
        None
    }

    /// Notes that a device has announced itself. A code that is no UTF-8 is
    /// a violation and changes nothing. `Ok` says whether the device is new
    /// to the session.
    pub fn record_broadcast(&mut self, info: &BroadcastInfo) -> (res: Result<
        bool,
        ProtocolViolation,
    >)
        requires
            old(self)@.wf(),
        ensures
            final(self)@.wf(),
            match res {
                Ok(fresh) => {
                    &&& code_text(info.broadcast_code) is Some
                    &&& fresh == !old(self)@.knows(code_text(info.broadcast_code).unwrap())
                    &&& final(self)@ == old(self)@.observe(
                        code_text(info.broadcast_code).unwrap(),
                    )
                },
                Err(e) => {
                    &&& code_text(info.broadcast_code) is None
                    &&& e == ProtocolViolation::MalformedBroadcastCode
                    &&& final(self)@ == old(self)@
                },
            },
    {
        let code = match broadcast_code_to_string(&info.broadcast_code) {
            Some(code) => code,
            None => { return Err(ProtocolViolation::MalformedBroadcastCode); },
        };
        match self.find(&code) {
            Some(_) => Ok(false),
            None => {
                let ghost text = code@;
                self.known_devices.push(KnownDevice { code, connected: false });
                proof {
                    assert(self@.devices =~= old(self)@.devices.push(
                        DeviceRecord { code: text, connected: false },
                    ));
                }
                Ok(true)
            },
        }
    }

    /// One step of draining the discovery queue: takes the oldest
    /// notification off the registry, if there is one, and notes the device.
    /// `Ok` says whether a notification was taken.
    pub fn poll_discovery(&mut self, registry: &mut Registry) -> (res: Result<
        bool,
        ProtocolViolation,
    >)
        requires
            old(self)@.wf(),
        ensures
            final(self)@.wf(),
            match old(registry)@.discovery {
                Some(queue) if queue.len() > 0 => {
                    &&& final(registry)@ == old(registry)@.without_first_broadcast()
                    &&& match code_text(queue[0].broadcast_code) {
                        Some(code) => res == Ok::<bool, ProtocolViolation>(true) && final(self)@
                            == old(self)@.observe(code),
                        None => res == Err::<bool, ProtocolViolation>(
                            ProtocolViolation::MalformedBroadcastCode,
                        ) && final(self)@ == old(self)@,
                    }
                },
                _ => {
                    &&& res == Ok::<bool, ProtocolViolation>(false)
                    &&& final(registry)@ == old(registry)@
                    &&& final(self)@ == old(self)@
                },
            },
    {
        match registry.next_broadcast() {
            None => Ok(false),
            Some(info) => match self.record_broadcast(&info) {
                Ok(_) => Ok(true),
                Err(e) => Err(e),
            },
        }
    }

    /// Whether `connect` would accept the code: the device has announced
    /// itself in this session.
    pub fn can_connect(&self, code: &str) -> (ok: bool)
        ensures
            ok == self@.knows(code@),
    {
        let needle = code.to_owned();
        self.find(&needle).is_some()
    }

    /// Returns a list of known devices, as a vector of strings representing
    /// the devices codes: those that have announced themselves and are not
    /// connected, in the order of their first announcements.
    pub fn list_known_devices(&self) -> (codes: Vec<String>)
        ensures
            codes@.len() == self@.listed().len(),
            codes@.map_values(|code: String| code@) == self@.listed(),
    {
        let mut codes: Vec<String> = Vec::new();
        let mut i: usize = 0;
        while i < self.known_devices.len()
            invariant
                i <= self.known_devices.len(),
                self@.devices.len() == self.known_devices.len(),
                codes@.map_values(|code: String| code@) == unconnected_codes(
                    self@.devices.take(i as int),
                ),
            decreases self.known_devices.len() - i,
        {
            proof {
                assert(self@.devices.take(i + 1).drop_last() =~= self@.devices.take(i as int));
                assert(self@.devices.take(i + 1).last() == self@.devices[i as int]);
            }
            if !self.known_devices[i].connected {
                let code = self.known_devices[i].code.clone();
                let ghost before = codes@;
                codes.push(code);
                proof {
                    assert(codes@.map_values(|code: String| code@) =~= before.map_values(
                        |code: String| code@,
                    ).push(code@));
                }
            }
            i = i + 1;
        }
        proof {
            assert(self@.devices.take(i as int) =~= self@.devices);
        }
        codes
    }

    /// Connects to the given device, returning a Device object. `handle` is
    /// the identity the SDK gave the device. Fails, and changes nothing,
    /// where the device has not announced itself. Else the device leaves
    /// the list of known devices, for good, and enters the state table as
    /// unknown; a device that was connected before is connected anew.
    pub fn connect(&mut self, registry: &mut Registry, code: &str, handle: u8) -> (res: Result<
        Device,
        UsageError,
    >)
        requires
            old(self)@.wf(),
        ensures
            final(self)@.wf(),
            match res {
                Ok(device) => {
                    &&& old(self)@.knows(code@)
                    &&& device.identity() == handle
                    &&& final(self)@ == old(self)@.connect(code@)
                    &&& final(registry)@ == old(registry)@.with_state(
                        handle,
                        LidarState::LidarStateUnknown,
                    )
                },
                Err(e) => {
                    &&& !old(self)@.knows(code@)
                    &&& e == UsageError::UnknownDevice
                    &&& final(self)@ == old(self)@
                    &&& final(registry)@ == old(registry)@
                },
            },
    {
        let needle = code.to_owned();
        let at = match self.find(&needle) {
            Some(i) => i,
            None => { return Err(UsageError::UnknownDevice); },
        };
        self.known_devices.set(at, KnownDevice { code: needle, connected: true });
        proof {
            assert(self@.devices =~= old(self)@.connect(code@).devices);
        }
        match Device::new(handle, registry) {
            Ok(device) => Ok(device),
            Err(_) => Err(UsageError::UnknownDevice),
        }
    }
}

/// A code is among the unconnected codes exactly when one of the records
/// carries it and is not connected.
pub proof fn lemma_unconnected_codes(devices: Seq<DeviceRecord>, code: Seq<char>)
    ensures
        unconnected_codes(devices).contains(code) <==> exists|i: int|
            0 <= i < devices.len() && (#[trigger] devices[i]).code == code
                && !devices[i].connected,
    decreases devices.len(),
{
    if devices.len() > 0 {
        let front = devices.drop_last();
        let last = devices.last();
        lemma_unconnected_codes(front, code);
        if unconnected_codes(devices).contains(code) {
            if !last.connected && last.code == code {
                assert(devices[devices.len() - 1].code == code);
            } else {
                if !last.connected {
                    let listed = unconnected_codes(front).push(last.code);
                    let k = choose|k: int| 0 <= k < listed.len() && listed[k] == code;
                    assert(unconnected_codes(front)[k] == code);
                }
                assert(unconnected_codes(front).contains(code));
                let i = choose|i: int|
                    0 <= i < front.len() && (#[trigger] front[i]).code == code
                        && !front[i].connected;
                assert(devices[i] == front[i]);
            }
        }
        if exists|i: int|
            0 <= i < devices.len() && (#[trigger] devices[i]).code == code
                && !devices[i].connected {
            let i = choose|i: int|
                0 <= i < devices.len() && (#[trigger] devices[i]).code == code
                    && !devices[i].connected;
            if i == devices.len() - 1 {
                let listed = unconnected_codes(front).push(last.code);
                assert(listed[listed.len() - 1] == code);
            } else {
                assert(front[i] == devices[i]);
                assert(unconnected_codes(front).contains(code));
                let k = choose|k: int|
                    0 <= k < unconnected_codes(front).len() && unconnected_codes(front)[k]
                        == code;
                if !last.connected {
                    assert(unconnected_codes(front).push(last.code)[k] == code);
                }
            }
        }
    }
}

/// A device that has been connected is not among the known devices.
pub proof fn lemma_connected_is_not_listed(session: SdkView, code: Seq<char>)
    requires
        session.wf(),
        session.is_connected(code),
    ensures
        !session.listed().contains(code),
{
    lemma_unconnected_codes(session.devices, code);
}

/// Connecting a device that has announced itself marks it connected, and
/// keeps the records apart.
pub proof fn lemma_connect_marks(session: SdkView, code: Seq<char>)
    requires
        session.wf(),
        session.knows(code),
    ensures
        session.connect(code).wf(),
        session.connect(code).is_connected(code),
{
    let i = choose|i: int|
        0 <= i < session.devices.len() && (#[trigger] session.devices[i]).code == code;
    assert(session.connect(code).devices[i].code == code);
}

/// A device that has been connected stays so, whichever device announces
/// itself or is connected afterwards.
pub proof fn lemma_connected_stays_connected(session: SdkView, code: Seq<char>, other: Seq<char>)
    requires
        session.is_connected(code),
    ensures
        session.observe(other).is_connected(code),
        session.connect(other).is_connected(code),
{
    let i = choose|i: int|
        0 <= i < session.devices.len() && (#[trigger] session.devices[i]).code == code
            && session.devices[i].connected;
    assert(session.observe(other).devices[i] == session.devices[i]);
    assert(session.connect(other).devices[i].code == code);
}

/// Once a device has been connected, the list of known devices never holds
/// its code again: not right after the connection, and not after any
/// further announcement or connection, of this device or of another.
pub proof fn lemma_connected_code_stays_unlisted(
    session: SdkView,
    code: Seq<char>,
    other: Seq<char>,
)
    requires
        session.wf(),
        session.knows(code),
    ensures
        !session.connect(code).listed().contains(code),
        !session.connect(code).observe(other).listed().contains(code),
        session.connect(code).knows(other) ==> !session.connect(code).connect(
            other,
        ).listed().contains(code),
{
    let connected = session.connect(code);
    lemma_connect_marks(session, code);
    lemma_connected_is_not_listed(connected, code);
    lemma_connected_stays_connected(connected, code, other);
    lemma_observe_keeps_wf(connected, other);
    lemma_connected_is_not_listed(connected.observe(other), code);
    if connected.knows(other) {
        lemma_connect_marks(connected, other);
        lemma_connected_is_not_listed(connected.connect(other), code);
    }
}

/// An announcement keeps the records apart.
pub proof fn lemma_observe_keeps_wf(session: SdkView, code: Seq<char>)
    requires
        session.wf(),
    ensures
        session.observe(code).wf(),
{
    if !session.knows(code) {
        let after = session.observe(code);
        assert forall|i: int, j: int| 0 <= i < j < after.devices.len() implies (
        #[trigger] after.devices[i]).code != (#[trigger] after.devices[j]).code by {
            assert(after.devices[i] == session.devices[i]);
            if j < session.devices.len() {
                assert(after.devices[j] == session.devices[j]);
            }
        }
    }
}

} // verus!
