use packet::ip;

fn v4_with_zero_addresses() -> Vec<u8> {
    let mut bytes = vec![0u8; 20];
    bytes[0] = 0x45;
    bytes[3] = 20;
    bytes
}

#[test]
fn udp_checksum_empty_segment() {
    // Pseudo-header words: four zero words, 0x0011, length 0.
    // 0xffff + 0x11 folds to 0x11; complement is 0xffee.
    let bytes = v4_with_zero_addresses();
    let p = ip::v4::Packet::new(bytes.as_slice()).unwrap();
    let ip_packet = ip::Packet::V4(p);
    assert_eq!(packet::udp::checksum(&ip_packet, &[]), 0xFFEE);
}

#[test]
fn udp_checksum_even_segment() {
    // Length 8 adds 0x8 to the pseudo-header sum: 0x11 + 0x8 = 0x19.
    let bytes = v4_with_zero_addresses();
    let p = ip::v4::Packet::new(bytes.as_slice()).unwrap();
    let ip_packet = ip::Packet::V4(p);
    let segment = [0u8; 8];
    assert_eq!(packet::udp::checksum(&ip_packet, &segment), 0xFFE6);
}

#[test]
fn udp_checksum_pads_trailing_odd_byte() {
    // One byte 0xAB counts as the word 0xAB00.
    // Sum: 0x11 (protocol) + 0x1 (length) + 0xAB00 = 0xAB12.
    let bytes = v4_with_zero_addresses();
    let p = ip::v4::Packet::new(bytes.as_slice()).unwrap();
    let ip_packet = ip::Packet::V4(p);
    let segment = [0xABu8];
    assert_eq!(packet::udp::checksum(&ip_packet, &segment), 0xFFFF - 0xAB12);
}

#[test]
fn udp_checksum_skips_its_field() {
    // Bytes six and seven of the segment hold the checksum and are
    // excluded from the sum.
    let bytes = v4_with_zero_addresses();
    let p = ip::v4::Packet::new(bytes.as_slice()).unwrap();
    let ip_packet = ip::Packet::V4(p);
    let mut segment = [0u8; 8];
    let a = packet::udp::checksum(&ip_packet, &segment);
    segment[6] = 0xAA;
    segment[7] = 0xBB;
    let b = packet::udp::checksum(&ip_packet, &segment);
    assert_eq!(a, b);
}

#[test]
fn udp_checksum_uses_the_addresses() {
    let mut bytes = v4_with_zero_addresses();
    bytes[12] = 0x01;
    let p = ip::v4::Packet::new(bytes.as_slice()).unwrap();
    let ip_packet = ip::Packet::V4(p);
    // Source 1.0.0.0 adds the word 0x0100 to the sum.
    assert_eq!(packet::udp::checksum(&ip_packet, &[]), 0xFFEE - 0x0100);
}
