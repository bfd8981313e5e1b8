use packet::checksum::internet;

#[test]
fn icmp_checksum_known_value() {
    // An all-zero eight-byte ICMP header with type 8, code 0.
    let bytes = [8u8, 0, 0, 0, 0, 0, 0, 0];
    assert_eq!(packet::icmp::checksum(&bytes), 0xF7FF);
}

#[test]
fn icmp_checksum_verifies_after_writing() {
    // Writing the checksum into the field makes the checksum of the whole
    // buffer, field included, come out zero.
    let mut bytes = [8u8, 0, 0, 0, 0, 1, 0, 1];
    let ck = packet::icmp::checksum(&bytes);
    bytes[2] = (ck >> 8) as u8;
    bytes[3] = (ck & 0xff) as u8;
    assert_eq!(internet(&bytes), 0);
}

#[test]
fn icmp_checksum_ignores_trailing_odd_byte() {
    let even = [8u8, 0, 0, 0, 0, 0, 0, 0];
    let odd = [8u8, 0, 0, 0, 0, 0, 0, 0, 0xFF];
    assert_eq!(packet::icmp::checksum(&even), packet::icmp::checksum(&odd));
}

#[test]
fn internet_checksum_empty_is_zero() {
    assert_eq!(internet(&[]), 0);
}

#[test]
fn v4_checksum_skips_its_field() {
    // The checksum field at bytes ten and eleven does not affect the sum.
    let mut header = [0u8; 20];
    header[0] = 0x45;
    let a = packet::ip::v4::checksum(&header);
    header[10] = 0xAA;
    header[11] = 0xBB;
    let b = packet::ip::v4::checksum(&header);
    assert_eq!(a, b);
    assert_eq!(a, 0xFFFF - 0x4500);
}

#[test]
fn v4_checksum_verifies_after_writing() {
    let mut header = [0u8; 20];
    header[0] = 0x45;
    header[8] = 64;
    header[9] = 17;
    let ck = packet::ip::v4::checksum(&header);
    header[10] = (ck >> 8) as u8;
    header[11] = (ck & 0xff) as u8;
    assert_eq!(internet(&header), 0);
}
