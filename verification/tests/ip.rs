use packet::buffer::Dynamic;
use packet::ip;
use packet::ip::Protocol;
use packet::Builder;
use packet::Error;

#[test]
fn v4_build_and_parse_round_trip() {
    let out = ip::Builder::with(Dynamic::default())
        .unwrap()
        .v4()
        .unwrap()
        .id(0x0102)
        .unwrap()
        .ttl(64)
        .unwrap()
        .protocol(Protocol::Udp)
        .unwrap()
        .source([192, 168, 0, 1])
        .unwrap()
        .destination([192, 168, 0, 199])
        .unwrap()
        .build()
        .unwrap();
    assert_eq!(out.len(), 20);
    let p = ip::v4::Packet::new(out.as_slice()).unwrap();
    assert_eq!(p.header_len(), 20);
    assert_eq!(p.length(), 20);
    assert_eq!(p.protocol(), Protocol::Udp);
    assert_eq!(p.source(), [192, 168, 0, 1]);
    assert_eq!(p.destination(), [192, 168, 0, 199]);
    // The header checksum the builder wrote makes the header verify.
    assert_eq!(packet::checksum::internet(&out), 0);
}

#[test]
fn v4_rejects_short_buffer() {
    let short = [0x45u8; 10];
    match ip::v4::Packet::new(&short[..]) {
        Err(e) => assert_eq!(e, Error::SmallBuffer),
        Ok(_) => panic!("a short buffer must be rejected"),
    }
}

#[test]
fn v4_rejects_wrong_version() {
    let mut bytes = [0u8; 20];
    bytes[0] = 0x65;
    match ip::v4::Packet::new(&bytes[..]) {
        Err(e) => assert_eq!(e, Error::InvalidPacket),
        Ok(_) => panic!("an invalid header must be rejected"),
    }
}

#[test]
fn v4_rejects_header_length_below_minimum() {
    let mut bytes = [0u8; 20];
    bytes[0] = 0x44;
    match ip::v4::Packet::new(&bytes[..]) {
        Err(e) => assert_eq!(e, Error::InvalidPacket),
        Ok(_) => panic!("an invalid header must be rejected"),
    }
}

#[test]
fn v4_rejects_header_length_past_buffer() {
    let mut bytes = [0u8; 20];
    bytes[0] = 0x46;
    match ip::v4::Packet::new(&bytes[..]) {
        Err(e) => assert_eq!(e, Error::InvalidPacket),
        Ok(_) => panic!("an invalid header must be rejected"),
    }
}

#[test]
fn v4_rejects_total_length_under_header() {
    let mut bytes = [0u8; 20];
    bytes[0] = 0x45;
    bytes[3] = 19;
    match ip::v4::Packet::new(&bytes[..]) {
        Err(e) => assert_eq!(e, Error::InvalidPacket),
        Ok(_) => panic!("a length under the header must be rejected"),
    }
}

#[test]
fn v4_rejects_total_length_past_buffer() {
    let mut bytes = [0u8; 20];
    bytes[0] = 0x45;
    bytes[3] = 21;
    match ip::v4::Packet::new(&bytes[..]) {
        Err(e) => assert_eq!(e, Error::InvalidPacket),
        Ok(_) => panic!("a length past the buffer must be rejected"),
    }
}

#[test]
fn v4_payload_excludes_trailing_padding() {
    // Total length 24 inside a 30-byte buffer: the six trailing bytes are
    // padding, not payload.
    let mut bytes = vec![0xEEu8; 30];
    bytes[0] = 0x45;
    bytes[1] = 0;
    bytes[2] = 0;
    bytes[3] = 24;
    for j in 4..24 {
        bytes[j] = 0;
    }
    bytes[20] = 0xAB;
    let p = ip::v4::Packet::new(bytes.as_slice()).unwrap();
    assert_eq!(p.payload(), &[0xAB, 0, 0, 0]);
}

#[test]
fn v4_header_and_payload_split_with_options() {
    // Header length six words: twenty-four header bytes, then payload.
    let mut bytes = vec![0u8; 28];
    bytes[0] = 0x46;
    bytes[3] = 28;
    bytes[24] = 0xAA;
    let p = ip::v4::Packet::new(bytes.as_slice()).unwrap();
    assert_eq!(p.header_len(), 24);
    assert_eq!(p.header().len(), 24);
    assert_eq!(p.payload(), &[0xAA, 0, 0, 0]);
}

#[test]
fn v4_to_owned_keeps_fields() {
    let mut bytes = [0u8; 20];
    bytes[0] = 0x45;
    bytes[3] = 20;
    bytes[9] = 1;
    let p = ip::v4::Packet::new(&bytes[..]).unwrap();
    let owned = p.to_owned();
    assert_eq!(owned.protocol(), Protocol::Icmp);
}

#[test]
fn v6_parse_fails_loudly() {
    let bytes = [0x60u8; 48];
    match ip::v6::Packet::new(&bytes[..]) {
        Err(e) => assert_eq!(e, Error::InvalidPacket),
        Ok(_) => panic!("the stub must reject every buffer"),
    }
    match ip::v6::Packet::no_payload(&bytes[..]) {
        Err(e) => assert_eq!(e, Error::InvalidPacket),
        Ok(_) => panic!("the stub must reject every buffer"),
    }
}

#[test]
fn v6_build_fails_loudly() {
    let b = ip::Builder::with(Dynamic::default())
        .unwrap()
        .v6()
        .unwrap();
    assert_eq!(b.build().unwrap_err(), Error::InvalidPacket);
}

#[test]
fn ip_builder_without_version_fails() {
    let b = ip::Builder::with(Dynamic::default()).unwrap();
    assert_eq!(b.build().unwrap_err(), Error::InvalidPacket);
}

#[test]
fn protocol_conversions_round_trip() {
    for v in 0u8..=255 {
        let back: u8 = Protocol::from(v).into();
        assert_eq!(back, v);
    }
    assert_eq!(Protocol::from(1), Protocol::Icmp);
    assert_eq!(Protocol::from(6), Protocol::Tcp);
    assert_eq!(Protocol::from(17), Protocol::Udp);
    assert_eq!(Protocol::from(99), Protocol::Unknown(99));
}
