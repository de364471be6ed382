use tee_gateway::packet::{PacketHeader, PacketType, HEADER_SIZE};

#[test]
fn header_size_is_16() {
    assert_eq!(HEADER_SIZE, 16);
}

#[test]
fn header_serializes_little_endian() {
    let header = PacketHeader { data_type: 3, data_size: 0x0102030405060708 };
    let bytes = header.to_bytes();
    assert_eq!(
        bytes,
        vec![3, 0, 0, 0, 0, 0, 0, 0, 0x08, 0x07, 0x06, 0x05, 0x04, 0x03, 0x02, 0x01]
    );
}

#[test]
fn header_parses_little_endian() {
    let bytes: Vec<u8> = vec![1, 0, 0, 0, 0, 0, 0, 0, 0x00, 0x02, 0, 0, 0, 0, 0, 0];
    let header = PacketHeader::from_bytes(&bytes);
    assert_eq!(header.data_type, 1);
    assert_eq!(header.data_size, 512);
}

#[test]
fn header_round_trip() {
    let header = PacketHeader { data_type: 4, data_size: 987654321 };
    let parsed = PacketHeader::from_bytes(&header.to_bytes());
    assert_eq!(parsed, header);

    let bytes: Vec<u8> = (100..116).collect();
    assert_eq!(PacketHeader::from_bytes(&bytes).to_bytes(), bytes);
}

#[test]
fn packet_type_tag_mapping() {
    assert_eq!(PacketType::from(0u64), PacketType::Unknown);
    assert_eq!(PacketType::from(1u64), PacketType::OpenSession);
    assert_eq!(PacketType::from(2u64), PacketType::CloseSession);
    assert_eq!(PacketType::from(3u64), PacketType::InvokeCommand);
    assert_eq!(PacketType::from(4u64), PacketType::RequestCancellation);
    assert_eq!(PacketType::from(5u64), PacketType::Unknown);
    assert_eq!(PacketType::from(u64::MAX), PacketType::Unknown);
}
