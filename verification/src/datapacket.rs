//! Point-cloud packets: their wire format and the decoder.
//!
//! Coordinates are kept as the integers the device sent. Dividing them into
//! metres and radians is left to the caller, so that nothing is lost here.
use crate::enums::CoordinateSystem;
use crate::error::ProtocolViolation;
use crate::wire::{be_value, le_i32, le_u16, le_u32, parse_timestamp, read_i32_le, read_u16_le, read_u32_le};
use vstd::prelude::*;
use vstd::slice::slice_subrange;

verus! {

/// The number of bytes of a packet header.
pub const HEADER_LEN: usize = 18;

/// The number of payload bytes of one Cartesian point.
pub const CARTESIAN_RECORD_LEN: usize = 13;

/// The number of payload bytes of one spherical point.
pub const SPHERICAL_RECORD_LEN: usize = 9;

/// The one supported format version.
pub const SUPPORTED_VERSION: u8 = 5;

/// The bit of the error code that reports the PPS signal and is no error.
pub const PPS_STATUS_BIT: u32 = 0x200;

/// A point in Cartesian coordinates, each in millimetres.
#[derive(Debug, Clone, Copy, PartialEq, Eq, Structural)]
pub struct CartesianPoint {
    pub x: i32,
    pub y: i32,
    pub z: i32,
    pub reflectivity: u8,
}

/// A point in spherical coordinates: the depth in the device's depth units,
/// the two angles in hundredths of a degree.
#[derive(Debug, Clone, Copy, PartialEq, Eq, Structural)]
pub struct SphericalPoint {
    pub depth: u32,
    pub theta: u16,
    pub phi: u16,
    pub reflectivity: u8,
}

/// One decoded point, in the encoding its packet used.
#[derive(Debug, Clone, Copy, PartialEq, Eq, Structural)]
pub enum DataPoint {
    Cartesian(CartesianPoint),
    Spherical(SphericalPoint),
}

/// One decoded packet: the device's timestamp in nanoseconds and the points
/// in the order in which they were sampled.
#[derive(Debug, Clone, PartialEq, Eq)]
pub struct DataPacket {
    pub timestamp: u64,
    pub points: Vec<DataPoint>,
}

/// What a `DataPacket` holds, as plain values.
pub struct DataPacketView {
    pub timestamp: u64,
    pub points: Seq<DataPoint>,
}

impl View for DataPacket {
    type V = DataPacketView;

    open spec fn view(&self) -> DataPacketView {
        DataPacketView { timestamp: self.timestamp, points: self.points@ }
    }
}

/// The header of a packet, field by field.
#[derive(Debug, Clone, Copy, PartialEq, Eq)]
pub struct PacketHeader {
    pub version: u8,
    pub slot: u8,
    pub id: u8,
    pub rsvd: u8,
    pub err_code: u32,
    pub timestamp_type: u8,
    pub data_type: u8,
    pub timestamp: [u8; 8],
}

/// The Cartesian point encoded by the first thirteen bytes of `record`.
pub open spec fn cartesian_of(record: Seq<u8>) -> CartesianPoint {
    CartesianPoint {
        x: le_i32(record.subrange(0, 4)),
        y: le_i32(record.subrange(4, 8)),
        z: le_i32(record.subrange(8, 12)),
        reflectivity: record[12],
    }
}

/// The spherical point encoded by the first nine bytes of `record`.
pub open spec fn spherical_of(record: Seq<u8>) -> SphericalPoint {
    SphericalPoint {
        depth: le_u32(record.subrange(0, 4)),
        theta: le_u16(record.subrange(4, 6)),
        phi: le_u16(record.subrange(6, 8)),
        reflectivity: record[8],
    }
}

/// The first `n` points of a Cartesian payload, in payload order.
pub open spec fn cartesian_points(payload: Seq<u8>, n: nat) -> Seq<DataPoint> {
    Seq::new(n, |i: int| DataPoint::Cartesian(cartesian_of(payload.subrange(13 * i, 13 * i + 13))))
}

/// The first `n` points of a spherical payload, in payload order.
pub open spec fn spherical_points(payload: Seq<u8>, n: nat) -> Seq<DataPoint> {
    Seq::new(n, |i: int| DataPoint::Spherical(spherical_of(payload.subrange(9 * i, 9 * i + 9))))
}

/// The first `n` points of a payload under the given encoding.
pub open spec fn points_of(system: CoordinateSystem, payload: Seq<u8>, n: nat) -> Seq<DataPoint> {
    match system {
        CoordinateSystem::Cartesian => cartesian_points(payload, n),
        CoordinateSystem::Spherical => spherical_points(payload, n),
    }
}

impl PacketHeader {
    /// The header that the first eighteen bytes of `s` encode: four single
    /// bytes, the error code in little-endian order, two single bytes and
    /// the eight bytes of the timestamp.
    pub open spec fn of_bytes(s: Seq<u8>) -> PacketHeader {
        PacketHeader {
            version: s[0],
            slot: s[1],
            id: s[2],
            rsvd: s[3],
            err_code: le_u32(s.subrange(4, 8)),
            timestamp_type: s[8],
            data_type: s[9],
            timestamp: [s[10], s[11], s[12], s[13], s[14], s[15], s[16], s[17]],
        }
    }

    /// The first check that the header fails, in the order error code,
    /// version, timestamp type, data type; `None` where it passes all four.
    pub open spec fn violation(self) -> Option<ProtocolViolation> {
        if self.err_code != 0 && self.err_code != PPS_STATUS_BIT {
            Some(ProtocolViolation::DeviceError(self.err_code))
        } else if self.version != SUPPORTED_VERSION {
            Some(ProtocolViolation::UnsupportedVersion(self.version))
        } else if self.timestamp_type != 0 {
            Some(ProtocolViolation::UnsupportedTimestampType(self.timestamp_type))
        } else if CoordinateSystem::of_data_type(self.data_type) is None {
            Some(ProtocolViolation::UnknownDataType(self.data_type))
        } else {
            None
        }
    }

    /// The point encoding that the header announces.
    pub open spec fn system(self) -> CoordinateSystem {
        CoordinateSystem::of_data_type(self.data_type).unwrap()
    }

    /// The timestamp field as a number.
    pub open spec fn time(self) -> u64 {
        be_value(self.timestamp@) as u64
    }

    /// Reads a header off the front of `buf`.
    pub fn parse(buf: &[u8]) -> (res: Result<PacketHeader, ProtocolViolation>)
        ensures
            match res {
                Ok(header) => buf@.len() >= HEADER_LEN && header == PacketHeader::of_bytes(buf@),
                Err(e) => buf@.len() < HEADER_LEN && e == ProtocolViolation::Truncated,
            },
    {
        if buf.len() < HEADER_LEN {
            return Err(ProtocolViolation::Truncated);
        }
        let err_code = read_u32_le(slice_subrange(buf, 4, 8));
        let header = PacketHeader {
            version: buf[0],
            slot: buf[1],
            id: buf[2],
            rsvd: buf[3],
            err_code,
            timestamp_type: buf[8],
            data_type: buf[9],
            timestamp: [buf[10], buf[11], buf[12], buf[13], buf[14], buf[15], buf[16], buf[17]],
        };
        proof {
            assert(header.timestamp@ =~= PacketHeader::of_bytes(buf@).timestamp@);
        }
        Ok(header)
    }

    /// Checks the header: the error code with the PPS status bit masked
    /// out, then the version, the timestamp type and the data type. Gives
    /// the point encoding of a header that passes.
    pub fn check(&self) -> (res: Result<CoordinateSystem, ProtocolViolation>)
        ensures
            match res {
                Ok(system) => self.violation() is None && system == self.system(),
                Err(e) => self.violation() == Some(e),
            },
    {
        let err_code: u32 = self.err_code;
        assert((err_code & !0x200u32 != 0) <==> (err_code != 0 && err_code != 0x200))
            by (bit_vector);
        if err_code & !PPS_STATUS_BIT != 0 {
            return Err(ProtocolViolation::DeviceError(err_code));
        }
        if self.version != SUPPORTED_VERSION {
            return Err(ProtocolViolation::UnsupportedVersion(self.version));
        }
        if self.timestamp_type != 0 {
            return Err(ProtocolViolation::UnsupportedTimestampType(self.timestamp_type));
        }
        match CoordinateSystem::from_data_type(self.data_type) {
            Some(system) => Ok(system),
            None => Err(ProtocolViolation::UnknownDataType(self.data_type)),
        }
    }
}

/// What decoding a header with its payload and declared point count gives:
/// the header's violation if it has one, a length mismatch unless the
/// payload is exactly `count` records long, and else the packet.
pub open spec fn decoded(header: PacketHeader, payload: Seq<u8>, count: nat) -> Result<
    DataPacketView,
    ProtocolViolation,
> {
    match header.violation() {
        Some(v) => Err(v),
        None => if payload.len() != count * header.system().record_size() {
            Err(ProtocolViolation::LengthMismatch)
        } else {
            Ok(
                DataPacketView {
                    timestamp: header.time(),
                    points: points_of(header.system(), payload, count),
                },
            )
        },
    }
}

/// What decoding a whole received buffer gives: truncation where it cannot
/// hold a header, else what the header and the bytes behind it decode to.
pub open spec fn decoded_buffer(buf: Seq<u8>, count: nat) -> Result<
    DataPacketView,
    ProtocolViolation,
> {
    if buf.len() < HEADER_LEN {
        Err(ProtocolViolation::Truncated)
    } else {
        decoded(PacketHeader::of_bytes(buf), buf.subrange(HEADER_LEN as int, buf.len() as int), count)
    }
}

/// Whether `res` is the outcome `expected`, with the packet taken by its
/// view.
pub open spec fn decodes_to(
    res: Result<DataPacket, ProtocolViolation>,
    expected: Result<DataPacketView, ProtocolViolation>,
) -> bool {
    match res {
        Ok(packet) => expected == Ok::<DataPacketView, ProtocolViolation>(packet@),
        Err(e) => expected == Err::<DataPacketView, ProtocolViolation>(e),
    }
}

impl DataPacket {
    /// Decodes one packet from its header, its payload and the number of
    /// points that the SDK declared for it.
    pub fn decode(header: &PacketHeader, payload: &[u8], point_count: u32) -> (res: Result<
        DataPacket,
        ProtocolViolation,
    >)
        ensures
            decodes_to(res, decoded(*header, payload@, point_count as nat)),
    {
        let system = match header.check() {
            Ok(system) => system,
            Err(e) => { return Err(e); },
        };
        let timestamp = parse_timestamp(vstd::array::array_as_slice(&header.timestamp));
        proof {
            assert(header.timestamp@.subrange(0, 8) =~= header.timestamp@);
        }
        let mut packet = DataPacket { timestamp, points: Vec::new() };
        let added = match system {
            CoordinateSystem::Cartesian => packet.add_cartesian(payload, point_count as usize),
            CoordinateSystem::Spherical => packet.add_spherical(payload, point_count as usize),
        };
        if let Err(e) = added {
            return Err(e);
        }
        proof {
            assert(packet.points@ =~= points_of(system, payload@, point_count as nat));
        }
        Ok(packet)
    }

    /// Decodes one packet from a received buffer, header first, and the
    /// number of points that the SDK declared for it.
    pub fn from_bytes(buf: &[u8], point_count: u32) -> (res: Result<DataPacket, ProtocolViolation>)
        ensures
            decodes_to(res, decoded_buffer(buf@, point_count as nat)),
    {
        let header = match PacketHeader::parse(buf) {
            Ok(header) => header,
            Err(e) => { return Err(e); },
        };
        DataPacket::decode(&header, slice_subrange(buf, HEADER_LEN, buf.len()), point_count)
    }

    /// Appends the `npoints` Cartesian points that `data` encodes. A payload
    /// that is not exactly `npoints` records long is rejected as malformed,
    /// and nothing is appended.
    pub fn add_cartesian(&mut self, data: &[u8], npoints: usize) -> (res: Result<
        (),
        ProtocolViolation,
    >)
        ensures
            final(self).timestamp == old(self).timestamp,
            data@.len() % 13 != 0 ==> res is Err,
            match res {
                Ok(()) => {
                    &&& data@.len() == npoints * 13
                    &&& final(self).points@ == old(self).points@ + cartesian_points(
                        data@,
                        npoints as nat,
                    )
                },
                Err(e) => {
                    &&& data@.len() != npoints * 13
                    &&& e == ProtocolViolation::LengthMismatch
                    &&& final(self).points@ == old(self).points@
                },
            },
    {
        let len: usize = data.len();
        proof {
            if len % 13 != 0 {
                lemma_ragged_length_fits_no_count(len as nat, 13, npoints as nat);
            }
        }
        if len as u128 != npoints as u128 * 13 {
            return Err(ProtocolViolation::LengthMismatch);
        }
        let mut i: usize = 0;
        while i < npoints
            invariant
                i <= npoints,
                data@.len() == npoints * 13,
                len == data@.len(),
                self.timestamp == old(self).timestamp,
                self.points@ == old(self).points@ + cartesian_points(data@, i as nat),
            decreases npoints - i,
        {
            let at: usize = i * 13;
            let record = slice_subrange(data, at, at + 13);
            let x = read_i32_le(slice_subrange(record, 0, 4));
            let y = read_i32_le(slice_subrange(record, 4, 8));
            let z = read_i32_le(slice_subrange(record, 8, 12));
            let reflectivity = record[12];
            let ghost before = self.points@;
            self.points.push(DataPoint::Cartesian(CartesianPoint { x, y, z, reflectivity }));
            proof {
                assert(record@ == data@.subrange(13 * i, 13 * i + 13));
                assert(self.points@ == before.push(
                    DataPoint::Cartesian(cartesian_of(record@)),
                ));
                assert(cartesian_points(data@, (i + 1) as nat) =~= cartesian_points(
                    data@,
                    i as nat,
                ).push(DataPoint::Cartesian(cartesian_of(record@))));
                assert(self.points@ =~= old(self).points@ + cartesian_points(
                    data@,
                    (i + 1) as nat,
                ));
            }
            i = i + 1;
        }
        Ok(())
    }

    /// Appends the `npoints` spherical points that `data` encodes. A payload
    /// that is not exactly `npoints` records long is rejected as malformed,
    /// and nothing is appended.
    pub fn add_spherical(&mut self, data: &[u8], npoints: usize) -> (res: Result<
        (),
        ProtocolViolation,
    >)
        ensures
            final(self).timestamp == old(self).timestamp,
            data@.len() % 9 != 0 ==> res is Err,
            match res {
                Ok(()) => {
                    &&& data@.len() == npoints * 9
                    &&& final(self).points@ == old(self).points@ + spherical_points(
                        data@,
                        npoints as nat,
                    )
                },
                Err(e) => {
                    &&& data@.len() != npoints * 9
                    &&& e == ProtocolViolation::LengthMismatch
                    &&& final(self).points@ == old(self).points@
                },
            },
    {
        let len: usize = data.len();
        proof {
            if len % 9 != 0 {
                lemma_ragged_length_fits_no_count(len as nat, 9, npoints as nat);
            }
        }
        if len as u128 != npoints as u128 * 9 {
            return Err(ProtocolViolation::LengthMismatch);
        }
        let mut i: usize = 0;
        while i < npoints
            invariant
                i <= npoints,
                data@.len() == npoints * 9,
                len == data@.len(),
                self.timestamp == old(self).timestamp,
                self.points@ == old(self).points@ + spherical_points(data@, i as nat),
            decreases npoints - i,
        {
            let at: usize = i * 9;
            let record = slice_subrange(data, at, at + 9);
            let depth = read_u32_le(slice_subrange(record, 0, 4));
            let theta = read_u16_le(slice_subrange(record, 4, 6));
            let phi = read_u16_le(slice_subrange(record, 6, 8));
            let reflectivity = record[8];
            let ghost before = self.points@;
            self.points.push(
                DataPoint::Spherical(SphericalPoint { depth, theta, phi, reflectivity }),
            );
            proof {
                assert(record@ == data@.subrange(9 * i, 9 * i + 9));
                assert(self.points@ == before.push(
                    DataPoint::Spherical(spherical_of(record@)),
                ));
                assert(spherical_points(data@, (i + 1) as nat) =~= spherical_points(
                    data@,
                    i as nat,
                ).push(DataPoint::Spherical(spherical_of(record@))));
                assert(self.points@ =~= old(self).points@ + spherical_points(
                    data@,
                    (i + 1) as nat,
                ));
            }
            i = i + 1;
        }
        Ok(())
    }
}

/// A header that passes its checks and announces Cartesian points, with a
/// payload of `13 * n` bytes, decodes to exactly `n` points. Point `i` is
/// Cartesian; its coordinates are the three little-endian signed numbers
/// at the start of record `i`, and its reflectivity is the record's last
/// byte.
pub proof fn lemma_cartesian_payload_decodes(header: PacketHeader, payload: Seq<u8>, n: nat)
    requires
        header.violation() is None,
        header.data_type == 0,
        payload.len() == 13 * n,
    ensures
        decoded(header, payload, n) is Ok,
        decoded(header, payload, n).unwrap().timestamp == header.time(),
        decoded(header, payload, n).unwrap().points.len() == n,
        forall|i: int|
            0 <= i < n ==> #[trigger] decoded(header, payload, n).unwrap().points[i]
                == DataPoint::Cartesian(
                CartesianPoint {
                    x: le_i32(payload.subrange(13 * i, 13 * i + 4)),
                    y: le_i32(payload.subrange(13 * i + 4, 13 * i + 8)),
                    z: le_i32(payload.subrange(13 * i + 8, 13 * i + 12)),
                    reflectivity: payload[13 * i + 12],
                },
            ),
{
    let points = decoded(header, payload, n).unwrap().points;
    assert forall|i: int| 0 <= i < n implies #[trigger] points[i] == DataPoint::Cartesian(
        CartesianPoint {
            x: le_i32(payload.subrange(13 * i, 13 * i + 4)),
            y: le_i32(payload.subrange(13 * i + 4, 13 * i + 8)),
            z: le_i32(payload.subrange(13 * i + 8, 13 * i + 12)),
            reflectivity: payload[13 * i + 12],
        },
    ) by {
        let record = payload.subrange(13 * i, 13 * i + 13);
        assert(record.subrange(0, 4) =~= payload.subrange(13 * i, 13 * i + 4));
        assert(record.subrange(4, 8) =~= payload.subrange(13 * i + 4, 13 * i + 8));
        assert(record.subrange(8, 12) =~= payload.subrange(13 * i + 8, 13 * i + 12));
    }
}

/// A header that passes its checks and announces spherical points, with a
/// payload of `9 * n` bytes, decodes to exactly `n` points. Point `i` is
/// spherical; its depth is the little-endian unsigned number in the first
/// four bytes of record `i`, theta and phi are the two-byte numbers behind
/// it, and its reflectivity is the record's last byte.
pub proof fn lemma_spherical_payload_decodes(header: PacketHeader, payload: Seq<u8>, n: nat)
    requires
        header.violation() is None,
        header.data_type == 1,
        payload.len() == 9 * n,
    ensures
        decoded(header, payload, n) is Ok,
        decoded(header, payload, n).unwrap().timestamp == header.time(),
        decoded(header, payload, n).unwrap().points.len() == n,
        forall|i: int|
            0 <= i < n ==> #[trigger] decoded(header, payload, n).unwrap().points[i]
                == DataPoint::Spherical(
                SphericalPoint {
                    depth: le_u32(payload.subrange(9 * i, 9 * i + 4)),
                    theta: le_u16(payload.subrange(9 * i + 4, 9 * i + 6)),
                    phi: le_u16(payload.subrange(9 * i + 6, 9 * i + 8)),
                    reflectivity: payload[9 * i + 8],
                },
            ),
{
    let points = decoded(header, payload, n).unwrap().points;
    assert forall|i: int| 0 <= i < n implies #[trigger] points[i] == DataPoint::Spherical(
        SphericalPoint {
            depth: le_u32(payload.subrange(9 * i, 9 * i + 4)),
            theta: le_u16(payload.subrange(9 * i + 4, 9 * i + 6)),
            phi: le_u16(payload.subrange(9 * i + 6, 9 * i + 8)),
            reflectivity: payload[9 * i + 8],
        },
    ) by {
        let record = payload.subrange(9 * i, 9 * i + 9);
        assert(record.subrange(0, 4) =~= payload.subrange(9 * i, 9 * i + 4));
        assert(record.subrange(4, 6) =~= payload.subrange(9 * i + 4, 9 * i + 6));
        assert(record.subrange(6, 8) =~= payload.subrange(9 * i + 6, 9 * i + 8));
    }
}

/// A length that is no whole number of records is no point count times the
/// record size.
pub proof fn lemma_ragged_length_fits_no_count(len: nat, size: nat, count: nat)
    requires
        size > 0,
        len % size != 0,
    ensures
        len != count * size,
{
    assert((count * size) % size == 0) by (nonlinear_arith)
        requires
            size > 0,
    ;
}

/// A payload whose length is no whole number of records is rejected as a
/// length mismatch, whatever point count is declared for it.
pub proof fn lemma_ragged_payload_rejected(header: PacketHeader, payload: Seq<u8>, count: nat)
    requires
        header.violation() is None,
        payload.len() % header.system().record_size() != 0,
    ensures
        decoded(header, payload, count) == Err::<DataPacketView, ProtocolViolation>(
            ProtocolViolation::LengthMismatch,
        ),
{
    lemma_ragged_length_fits_no_count(payload.len(), header.system().record_size(), count);
}

} // verus!
