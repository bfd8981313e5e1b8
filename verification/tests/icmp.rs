use packet::buffer::{Dynamic, Slice};
use packet::icmp::code::{DestinationUnreachable, ParameterProblem, RedirectMessage};
use packet::icmp::echo;
use packet::icmp::timestamp;
use packet::icmp::Kind;
use packet::Builder;
use packet::Error;

#[test]
fn echo_request_end_to_end() {
    // Identifier 1, sequence 1, empty payload.
    let out = echo::Builder::with(Dynamic::default())
        .unwrap()
        .request()
        .unwrap()
        .identifier(1)
        .unwrap()
        .sequence(1)
        .unwrap()
        .build()
        .unwrap();
    // The checksum covers the whole layer, identifier and sequence words
    // included, so their two one-bits lower it from 0xF7FF to 0xF7FD.
    assert_eq!(out, vec![0x08, 0x00, 0xF7, 0xFD, 0x00, 0x01, 0x00, 0x01]);
    assert_eq!(packet::checksum::internet(&out), 0);
}

#[test]
fn echo_request_all_zero_fields() {
    let out = echo::Builder::with(Dynamic::default())
        .unwrap()
        .request()
        .unwrap()
        .identifier(0)
        .unwrap()
        .sequence(0)
        .unwrap()
        .build()
        .unwrap();
    assert_eq!(out, vec![0x08, 0x00, 0xF7, 0xFF, 0x00, 0x00, 0x00, 0x00]);
}

#[test]
fn echo_round_trip() {
    let payload = [0xDEu8, 0xAD, 0xBE];
    let out = echo::Builder::with(Dynamic::default())
        .unwrap()
        .request()
        .unwrap()
        .identifier(0x1234)
        .unwrap()
        .sequence(0x5678)
        .unwrap()
        .payload(&payload)
        .unwrap()
        .build()
        .unwrap();
    let p = echo::Packet::new(out.as_slice()).unwrap();
    assert!(p.is_request());
    assert!(!p.is_reply());
    assert_eq!(p.identifier(), 0x1234);
    assert_eq!(p.sequence(), 0x5678);
    assert_eq!(p.payload(), &payload);
    // The checksum the builder wrote makes the packet verify.
    assert_eq!(packet::checksum::internet(&out), 0);
}

#[test]
fn echo_reply_round_trip() {
    let out = echo::Builder::with(Dynamic::default())
        .unwrap()
        .reply()
        .unwrap()
        .identifier(7)
        .unwrap()
        .sequence(9)
        .unwrap()
        .build()
        .unwrap();
    let p = echo::Packet::new(out.as_slice()).unwrap();
    assert!(p.is_reply());
    assert_eq!(p.identifier(), 7);
    assert_eq!(p.sequence(), 9);
    assert_eq!(p.payload(), &[] as &[u8]);
}

#[test]
fn echo_to_owned_keeps_fields() {
    let out = echo::Builder::with(Dynamic::default())
        .unwrap()
        .request()
        .unwrap()
        .identifier(3)
        .unwrap()
        .sequence(4)
        .unwrap()
        .build()
        .unwrap();
    let p = echo::Packet::new(out.as_slice()).unwrap();
    let owned = p.to_owned();
    assert_eq!(owned.identifier(), 3);
    assert_eq!(owned.sequence(), 4);
    assert!(owned.is_request());
}

#[test]
fn echo_build_without_kind_is_invalid() {
    let b = echo::Builder::with(Dynamic::default()).unwrap();
    assert_eq!(b.build().unwrap_err(), Error::InvalidPacket);
}

#[test]
fn echo_payload_twice_is_already_defined() {
    let b = echo::Builder::with(Dynamic::default())
        .unwrap()
        .request()
        .unwrap()
        .payload(&[1, 2])
        .unwrap();
    match b.payload(&[3]) {
        Err(e) => assert_eq!(e, Error::AlreadyDefined),
        Ok(_) => panic!("a second payload must be rejected"),
    }
}

#[test]
fn echo_identical_over_dynamic_and_spare_slice() {
    // The same build sequence over the growable buffer and over a
    // fixed-capacity buffer with dirty spare room gives identical bytes:
    // the uncommitted tail is neither emitted nor checksummed.
    let over_dynamic = echo::Builder::with(Dynamic::default())
        .unwrap()
        .request()
        .unwrap()
        .identifier(1)
        .unwrap()
        .sequence(1)
        .unwrap()
        .build()
        .unwrap();
    let over_slice = echo::Builder::with(Slice::new(vec![0xEEu8; 16]))
        .unwrap()
        .request()
        .unwrap()
        .identifier(1)
        .unwrap()
        .sequence(1)
        .unwrap()
        .build()
        .unwrap();
    assert_eq!(over_dynamic, over_slice);
    assert_eq!(over_slice, vec![0x08, 0x00, 0xF7, 0xFD, 0x00, 0x01, 0x00, 0x01]);
}

#[test]
fn echo_payload_beyond_fixed_capacity_fails() {
    let b = echo::Builder::with(Slice::new(vec![0u8; 10])).unwrap();
    let b = b.request().unwrap();
    match b.payload(&[1, 2, 3, 4]) {
        Err(e) => assert_eq!(e, Error::SmallBuffer),
        Ok(_) => panic!("growth past capacity must be rejected"),
    }
}

#[test]
fn echo_rejects_short_buffer() {
    let short = [8u8, 0, 0];
    match echo::Packet::new(&short[..]) {
        Err(e) => assert_eq!(e, Error::SmallBuffer),
        Ok(_) => panic!("a short buffer must be rejected"),
    }
}

#[test]
fn echo_rejects_wrong_kind() {
    // Kind 13 is a timestamp request, not an echo.
    let bytes = [13u8, 0, 0, 0, 0, 1, 0, 1];
    match echo::Packet::new(&bytes[..]) {
        Err(e) => assert_eq!(e, Error::InvalidPacket),
        Ok(_) => panic!("a wrong kind byte must be rejected"),
    }
}

#[test]
fn echo_header_and_payload_split() {
    let bytes = [8u8, 0, 0, 0, 0, 1, 0, 2, 0xAB, 0xCD];
    let p = echo::Packet::new(&bytes[..]).unwrap();
    assert_eq!(p.header(), &bytes[..8]);
    assert_eq!(p.payload(), &[0xAB, 0xCD]);
}

#[test]
fn timestamp_request_round_trip() {
    let out = timestamp::Builder::with(Dynamic::default())
        .unwrap()
        .request()
        .unwrap()
        .identifier(0x0102)
        .unwrap()
        .sequence(0x0304)
        .unwrap()
        .originate(0x11223344)
        .unwrap()
        .receive(0x55667788)
        .unwrap()
        .transmit(0x99AABBCC)
        .unwrap()
        .build()
        .unwrap();
    assert_eq!(out.len(), 20);
    assert_eq!(out[0], 13);
    assert_eq!(&out[4..6], &[0x01, 0x02]);
    assert_eq!(&out[6..8], &[0x03, 0x04]);
    assert_eq!(&out[8..12], &[0x11, 0x22, 0x33, 0x44]);
    assert_eq!(&out[12..16], &[0x55, 0x66, 0x77, 0x88]);
    assert_eq!(&out[16..20], &[0x99, 0xAA, 0xBB, 0xCC]);
    // The checksum the builder wrote makes the packet verify.
    assert_eq!(packet::checksum::internet(&out), 0);
}

#[test]
fn timestamp_reply_kind_byte() {
    let out = timestamp::Builder::with(Dynamic::default())
        .unwrap()
        .reply()
        .unwrap()
        .build()
        .unwrap();
    assert_eq!(out[0], 14);
}

#[test]
fn timestamp_build_without_kind_is_invalid() {
    let b = timestamp::Builder::with(Dynamic::default()).unwrap();
    assert_eq!(b.build().unwrap_err(), Error::InvalidPacket);
}

#[test]
fn kind_conversions_round_trip() {
    for v in 0u8..=255 {
        let k = Kind::from(v);
        let back: u8 = k.into();
        assert_eq!(back, v);
    }
    assert_eq!(Kind::from(8), Kind::EchoRequest);
    assert_eq!(Kind::from(0), Kind::EchoReply);
    assert_eq!(Kind::from(13), Kind::TimestampRequest);
    assert_eq!(Kind::from(14), Kind::TimestampReply);
    assert_eq!(Kind::from(2), Kind::Unknown(2));
}

#[test]
fn code_conversions_round_trip() {
    for v in 0u8..=255 {
        let back: u8 = DestinationUnreachable::from(v).into();
        assert_eq!(back, v);
        let back: u8 = RedirectMessage::from(v).into();
        assert_eq!(back, v);
        let back: u8 = ParameterProblem::from(v).into();
        assert_eq!(back, v);
    }
    assert_eq!(
        DestinationUnreachable::from(3),
        DestinationUnreachable::DestinationPortUnreachable
    );
    assert_eq!(
        RedirectMessage::from(1),
        RedirectMessage::RedirectDatagramForHost
    );
    assert_eq!(ParameterProblem::from(2), ParameterProblem::BadLength);
    assert_eq!(
        DestinationUnreachable::from(200),
        DestinationUnreachable::Unknown(200)
    );
}
