use livox::datapacket::{HEADER_LEN, PPS_STATUS_BIT, SUPPORTED_VERSION};
use livox::wire::parse_timestamp;
use livox::{
    CartesianPoint, CoordinateSystem, DataPacket, DataPoint, PacketHeader, ProtocolViolation,
    SphericalPoint,
};

fn header(data_type: u8) -> PacketHeader {
    PacketHeader {
        version: 5,
        slot: 1,
        id: 2,
        rsvd: 0,
        err_code: 0,
        timestamp_type: 0,
        data_type,
        timestamp: [0, 0, 0, 0, 0, 0, 0, 0],
    }
}

fn cartesian_record(x: i32, y: i32, z: i32, reflectivity: u8) -> Vec<u8> {
    let mut record = Vec::new();
    record.extend_from_slice(&x.to_le_bytes());
    record.extend_from_slice(&y.to_le_bytes());
    record.extend_from_slice(&z.to_le_bytes());
    record.push(reflectivity);
    record
}

fn spherical_record(depth: u32, theta: u16, phi: u16, reflectivity: u8) -> Vec<u8> {
    let mut record = Vec::new();
    record.extend_from_slice(&depth.to_le_bytes());
    record.extend_from_slice(&theta.to_le_bytes());
    record.extend_from_slice(&phi.to_le_bytes());
    record.push(reflectivity);
    record
}

#[test]
fn timestamp_with_low_byte_set_is_one() {
    assert_eq!(parse_timestamp(&[0, 0, 0, 0, 0, 0, 0, 1]), 1);
}

#[test]
fn timestamp_with_high_byte_set_is_two_to_the_56() {
    assert_eq!(parse_timestamp(&[1, 0, 0, 0, 0, 0, 0, 0]), 1u64 << 56);
}

#[test]
fn timestamp_is_big_endian() {
    assert_eq!(
        parse_timestamp(&[0x01, 0x23, 0x45, 0x67, 0x89, 0xAB, 0xCD, 0xEF]),
        0x0123_4567_89AB_CDEF
    );
    assert_eq!(parse_timestamp(&[0xFF; 8]), u64::MAX);
}

#[test]
fn timestamp_reads_only_the_first_eight_bytes() {
    assert_eq!(parse_timestamp(&[0, 0, 0, 0, 0, 0, 1, 0, 9, 9]), 256);
}

#[test]
fn cartesian_payload_decodes_in_order() {
    let mut payload = cartesian_record(1000, -2000, 3, 7);
    payload.extend(cartesian_record(i32::MIN, i32::MAX, -1, 255));
    payload.extend(cartesian_record(0, 0x0102_0304, 0, 0));
    let packet = DataPacket::decode(&header(0), &payload, 3).unwrap();
    assert_eq!(packet.timestamp, 0);
    assert_eq!(
        packet.points,
        vec![
            DataPoint::Cartesian(CartesianPoint { x: 1000, y: -2000, z: 3, reflectivity: 7 }),
            DataPoint::Cartesian(CartesianPoint {
                x: i32::MIN,
                y: i32::MAX,
                z: -1,
                reflectivity: 255
            }),
            DataPoint::Cartesian(CartesianPoint { x: 0, y: 0x0102_0304, z: 0, reflectivity: 0 }),
        ]
    );
}

#[test]
fn cartesian_bytes_are_little_endian() {
    let payload = [0x01, 0x00, 0x00, 0x00, 0x00, 0x01, 0x00, 0x00, 0xFE, 0xFF, 0xFF, 0xFF, 0x2A];
    let packet = DataPacket::decode(&header(0), &payload, 1).unwrap();
    assert_eq!(
        packet.points,
        vec![DataPoint::Cartesian(CartesianPoint { x: 1, y: 256, z: -2, reflectivity: 42 })]
    );
}

#[test]
fn cartesian_millimetres_scale_to_metres() {
    let payload = cartesian_record(1500, -250, 12345, 9);
    let packet = DataPacket::decode(&header(0), &payload, 1).unwrap();
    match packet.points[0] {
        DataPoint::Cartesian(p) => {
            assert_eq!(p.x as f32 / 1000.0, 1.5);
            assert_eq!(p.y as f32 / 1000.0, -0.25);
            assert_eq!(p.z as f32 / 1000.0, 12.345);
            assert_eq!(p.reflectivity, 9);
        }
        DataPoint::Spherical(_) => panic!("a Cartesian packet gave a spherical point"),
    }
}

#[test]
fn spherical_payload_decodes_in_order() {
    let mut payload = spherical_record(123_456, 9000, 18000, 100);
    payload.extend(spherical_record(u32::MAX, u16::MAX, 0, 1));
    let packet = DataPacket::decode(&header(1), &payload, 2).unwrap();
    assert_eq!(
        packet.points,
        vec![
            DataPoint::Spherical(SphericalPoint {
                depth: 123_456,
                theta: 9000,
                phi: 18000,
                reflectivity: 100
            }),
            DataPoint::Spherical(SphericalPoint {
                depth: u32::MAX,
                theta: u16::MAX,
                phi: 0,
                reflectivity: 1
            }),
        ]
    );
}

#[test]
fn spherical_bytes_are_little_endian() {
    let payload = [0x00, 0x00, 0x01, 0x00, 0x02, 0x01, 0xFF, 0x00, 0x05];
    let packet = DataPacket::decode(&header(1), &payload, 1).unwrap();
    assert_eq!(
        packet.points,
        vec![DataPoint::Spherical(SphericalPoint {
            depth: 65536,
            theta: 258,
            phi: 255,
            reflectivity: 5
        })]
    );
}

#[test]
fn spherical_units_scale_to_metres_and_radians() {
    let payload = spherical_record(2500, 9000, 18000, 3);
    let packet = DataPacket::decode(&header(1), &payload, 1).unwrap();
    match packet.points[0] {
        DataPoint::Spherical(p) => {
            assert_eq!(p.depth as f32 / 1000.0, 2.5);
            let theta = p.theta as f64 / 100.0 * std::f64::consts::PI / 180.0;
            let phi = p.phi as f64 / 100.0 * std::f64::consts::PI / 180.0;
            assert!((theta - std::f64::consts::FRAC_PI_2).abs() < 1e-12);
            assert!((phi - std::f64::consts::PI).abs() < 1e-12);
        }
        DataPoint::Cartesian(_) => panic!("a spherical packet gave a Cartesian point"),
    }
}

#[test]
fn empty_payload_decodes_to_no_points() {
    let packet = DataPacket::decode(&header(0), &[], 0).unwrap();
    assert_eq!(packet.points, vec![]);
    let packet = DataPacket::decode(&header(1), &[], 0).unwrap();
    assert_eq!(packet.points, vec![]);
}

#[test]
fn packet_carries_the_header_timestamp() {
    let mut h = header(0);
    h.timestamp = [0, 0, 0, 0, 0, 0, 0x30, 0x39];
    let packet = DataPacket::decode(&h, &[], 0).unwrap();
    assert_eq!(packet.timestamp, 12345);
}

#[test]
fn ragged_cartesian_payload_is_rejected() {
    let payload = vec![0u8; 14];
    for count in 0..4 {
        assert_eq!(
            DataPacket::decode(&header(0), &payload, count),
            Err(ProtocolViolation::LengthMismatch)
        );
    }
}

#[test]
fn ragged_spherical_payload_is_rejected() {
    let payload = vec![0u8; 10];
    for count in 0..4 {
        assert_eq!(
            DataPacket::decode(&header(1), &payload, count),
            Err(ProtocolViolation::LengthMismatch)
        );
    }
}

#[test]
fn point_count_must_match_the_payload() {
    let payload = vec![0u8; 26];
    assert_eq!(
        DataPacket::decode(&header(0), &payload, 1),
        Err(ProtocolViolation::LengthMismatch)
    );
    assert_eq!(
        DataPacket::decode(&header(0), &payload, 3),
        Err(ProtocolViolation::LengthMismatch)
    );
    assert_eq!(
        DataPacket::decode(&header(0), &payload, u32::MAX),
        Err(ProtocolViolation::LengthMismatch)
    );
    assert!(DataPacket::decode(&header(0), &payload, 2).is_ok());
    // Thirteen-byte records are no nine-byte records.
    assert_eq!(
        DataPacket::decode(&header(1), &payload, 2),
        Err(ProtocolViolation::LengthMismatch)
    );
}

#[test]
fn pps_status_bit_is_no_error() {
    let mut h = header(0);
    h.err_code = PPS_STATUS_BIT;
    assert_eq!(PPS_STATUS_BIT, 1 << 9);
    assert_eq!(h.check(), Ok(CoordinateSystem::Cartesian));
    assert!(DataPacket::decode(&h, &[], 0).is_ok());
}

#[test]
fn any_other_error_bit_is_a_device_error() {
    for bit in 0..32 {
        if bit == 9 {
            continue;
        }
        let mut h = header(0);
        h.err_code = 1 << bit;
        assert_eq!(h.check(), Err(ProtocolViolation::DeviceError(1 << bit)));
        h.err_code = (1 << bit) | PPS_STATUS_BIT;
        assert_eq!(
            DataPacket::decode(&h, &[], 0),
            Err(ProtocolViolation::DeviceError((1 << bit) | PPS_STATUS_BIT))
        );
    }
}

#[test]
fn only_version_five_is_supported() {
    assert_eq!(SUPPORTED_VERSION, 5);
    for version in [0u8, 4, 6, 255] {
        let mut h = header(0);
        h.version = version;
        assert_eq!(
            DataPacket::decode(&h, &[], 0),
            Err(ProtocolViolation::UnsupportedVersion(version))
        );
    }
}

#[test]
fn only_unsynchronised_nanoseconds_are_supported() {
    for timestamp_type in [1u8, 2, 3, 255] {
        let mut h = header(0);
        h.timestamp_type = timestamp_type;
        assert_eq!(
            DataPacket::decode(&h, &[], 0),
            Err(ProtocolViolation::UnsupportedTimestampType(timestamp_type))
        );
    }
}

#[test]
fn unknown_data_type_is_rejected() {
    for data_type in [2u8, 3, 255] {
        assert_eq!(
            DataPacket::decode(&header(data_type), &[], 0),
            Err(ProtocolViolation::UnknownDataType(data_type))
        );
    }
}

#[test]
fn header_checks_come_in_order() {
    let mut h = header(9);
    h.timestamp_type = 1;
    h.version = 4;
    h.err_code = 1;
    let payload = [0u8; 5];
    assert_eq!(DataPacket::decode(&h, &payload, 1), Err(ProtocolViolation::DeviceError(1)));
    h.err_code = 0;
    assert_eq!(DataPacket::decode(&h, &payload, 1), Err(ProtocolViolation::UnsupportedVersion(4)));
    h.version = 5;
    assert_eq!(
        DataPacket::decode(&h, &payload, 1),
        Err(ProtocolViolation::UnsupportedTimestampType(1))
    );
    h.timestamp_type = 0;
    assert_eq!(DataPacket::decode(&h, &payload, 1), Err(ProtocolViolation::UnknownDataType(9)));
    h.data_type = 0;
    assert_eq!(DataPacket::decode(&h, &payload, 1), Err(ProtocolViolation::LengthMismatch));
}

#[test]
fn header_parses_field_by_field() {
    let bytes = [
        5, 1, 2, 3, 0x00, 0x02, 0x00, 0x00, 0, 1, 0, 0, 0, 0, 0, 0, 0, 7, 0xAA,
    ];
    assert_eq!(HEADER_LEN, 18);
    assert_eq!(
        PacketHeader::parse(&bytes),
        Ok(PacketHeader {
            version: 5,
            slot: 1,
            id: 2,
            rsvd: 3,
            err_code: 0x200,
            timestamp_type: 0,
            data_type: 1,
            timestamp: [0, 0, 0, 0, 0, 0, 0, 7],
        })
    );
}

#[test]
fn short_buffer_is_truncated() {
    assert_eq!(PacketHeader::parse(&[]), Err(ProtocolViolation::Truncated));
    assert_eq!(PacketHeader::parse(&[5u8; 17]), Err(ProtocolViolation::Truncated));
    assert_eq!(DataPacket::from_bytes(&[5u8; 17], 0), Err(ProtocolViolation::Truncated));
    assert!(PacketHeader::parse(&[5u8; 18]).is_ok());
}

#[test]
fn whole_buffer_decodes() {
    let mut buf = vec![5, 0, 0, 0, 0, 0, 0, 0, 0, 0, 0, 0, 0, 0, 0, 0, 1, 0];
    buf.extend(cartesian_record(-1, 2, -3, 4));
    let packet = DataPacket::from_bytes(&buf, 1).unwrap();
    assert_eq!(packet.timestamp, 256);
    assert_eq!(
        packet.points,
        vec![DataPoint::Cartesian(CartesianPoint { x: -1, y: 2, z: -3, reflectivity: 4 })]
    );
    assert_eq!(DataPacket::from_bytes(&buf, 2), Err(ProtocolViolation::LengthMismatch));
    buf.push(0);
    assert_eq!(DataPacket::from_bytes(&buf, 1), Err(ProtocolViolation::LengthMismatch));
}

#[test]
fn points_are_appended_to_those_present() {
    let mut packet = DataPacket { timestamp: 77, points: Vec::new() };
    assert_eq!(packet.add_cartesian(&cartesian_record(1, 2, 3, 4), 1), Ok(()));
    assert_eq!(packet.add_spherical(&spherical_record(5, 6, 7, 8), 1), Ok(()));
    assert_eq!(packet.add_cartesian(&[], 0), Ok(()));
    assert_eq!(packet.timestamp, 77);
    assert_eq!(
        packet.points,
        vec![
            DataPoint::Cartesian(CartesianPoint { x: 1, y: 2, z: 3, reflectivity: 4 }),
            DataPoint::Spherical(SphericalPoint { depth: 5, theta: 6, phi: 7, reflectivity: 8 }),
        ]
    );
}

#[test]
fn mismatched_payload_appends_nothing() {
    let mut packet = DataPacket { timestamp: 77, points: Vec::new() };
    packet.add_cartesian(&cartesian_record(1, 2, 3, 4), 1).unwrap();
    let before = packet.clone();
    for len in [1usize, 12, 14, 25, 27] {
        for npoints in [0usize, 1, 2, 3, usize::MAX] {
            assert_eq!(
                packet.add_cartesian(&vec![0u8; len], npoints),
                Err(ProtocolViolation::LengthMismatch)
            );
        }
    }
    for len in [1usize, 8, 10, 17, 19] {
        for npoints in [0usize, 1, 2, 3, usize::MAX] {
            assert_eq!(
                packet.add_spherical(&vec![0u8; len], npoints),
                Err(ProtocolViolation::LengthMismatch)
            );
        }
    }
    // A whole number of records, but not the number declared.
    assert_eq!(packet.add_cartesian(&[0u8; 26], 1), Err(ProtocolViolation::LengthMismatch));
    assert_eq!(packet.add_spherical(&[0u8; 18], 3), Err(ProtocolViolation::LengthMismatch));
    assert_eq!(packet.add_cartesian(&[], 1), Err(ProtocolViolation::LengthMismatch));
    assert_eq!(packet, before);
}

#[test]
fn data_type_names_the_encoding() {
    assert_eq!(CoordinateSystem::from_data_type(0), Some(CoordinateSystem::Cartesian));
    assert_eq!(CoordinateSystem::from_data_type(1), Some(CoordinateSystem::Spherical));
    assert_eq!(CoordinateSystem::from_data_type(2), None);
    assert_eq!(CoordinateSystem::Cartesian.record_len(), 13);
    assert_eq!(CoordinateSystem::Spherical.record_len(), 9);
}
