use packet::Builder;
use packet::buffer::Dynamic;
use packet::icmp::echo;
use packet::ip;
use packet::size;

#[test]
fn echo_size_contract() {
    type View<'a> = echo::Packet<&'a [u8]>;
    assert_eq!(<View as size::header::Min>::min(), 8);
    assert_eq!(<View as size::header::Max>::max(), 8);
    assert_eq!(<View as size::payload::Min>::min(), 0);
    let bytes = [8u8, 0, 0, 0, 0, 1, 0, 1, 0xAA, 0xBB, 0xCC];
    let p = echo::Packet::new(&bytes[..]).unwrap();
    assert_eq!(size::header::Size::size(&p), 8);
    assert_eq!(size::payload::Size::size(&p), 3);
    assert_eq!(size::Size::size(&p), 11);
}

#[test]
fn v4_size_contract() {
    type View<'a> = ip::v4::Packet<&'a [u8]>;
    assert_eq!(<View as size::header::Min>::min(), 20);
    assert_eq!(<View as size::header::Max>::max(), 60);
    // Total length 28 in a 30-byte buffer: two bytes of trailing padding
    // count neither as payload nor as packet size.
    let mut bytes = vec![0u8; 30];
    bytes[0] = 0x46;
    bytes[3] = 28;
    let p = ip::v4::Packet::new(bytes.as_slice()).unwrap();
    assert_eq!(size::header::Size::size(&p), 24);
    assert_eq!(size::payload::Size::size(&p), 4);
    assert_eq!(size::Size::size(&p), 28);
}

#[test]
fn v6_size_contract_is_all_zero() {
    type View<'a> = ip::v6::Packet<&'a [u8]>;
    assert_eq!(<View as size::header::Min>::min(), 0);
    assert_eq!(<View as size::header::Max>::max(), 0);
    assert_eq!(<View as size::payload::Max>::max(), 0);
    let p = ip::v6::Packet::unchecked(&[][..]);
    assert_eq!(size::Size::size(&p), 0);
}

#[test]
fn wire_round_trips() {
    let mut b = [0u8; 6];
    packet::wire::write_u16_be(&mut b, 0, 0xBEEF);
    packet::wire::write_u32_be(&mut b, 2, 0x01020304);
    assert_eq!(b, [0xBE, 0xEF, 0x01, 0x02, 0x03, 0x04]);
    assert_eq!(packet::wire::read_u16_be(&b, 0), 0xBEEF);
    assert_eq!(packet::wire::read_u32_be(&b, 2), 0x01020304);
}

#[test]
fn echo_builder_view_reads_back_fields() {
    let b = echo::Builder::with(Dynamic::default())
        .unwrap()
        .request()
        .unwrap()
        .identifier(42)
        .unwrap();
    let view = b.as_packet().unwrap();
    assert_eq!(view.identifier(), 42);
    assert!(view.is_request());
}
