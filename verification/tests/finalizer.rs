use packet::builder::{Finalization, Fixup};
use packet::buffer::Dynamic;
use packet::Builder;

#[test]
fn fixups_run_last_registered_first() {
    // The outer layer registers its marker first, the inner layer after;
    // the inner marker must land in the buffer before the outer one.
    let mut fin = Finalization::default();
    fin.add(Fixup::Append { value: 0xAA });
    fin.add(Fixup::Append { value: 0xBB });
    let mut bytes = vec![1u8, 2];
    fin.finalize(&mut bytes).unwrap();
    assert_eq!(bytes, vec![1, 2, 0xBB, 0xAA]);
}

#[test]
fn transferred_fixups_run_after_the_inner_builders_own() {
    // An enclosing builder's fixup, handed to the inner echo builder, runs
    // only after the echo checksum fixup: the appended marker is not part
    // of the checksummed bytes.
    let mut outer = Finalization::default();
    outer.add(Fixup::Append { value: 0x5A });
    let mut b = packet::icmp::echo::Builder::with(Dynamic::default()).unwrap();
    b.finalizer().extend(outer);
    let out = b
        .request()
        .unwrap()
        .identifier(1)
        .unwrap()
        .sequence(1)
        .unwrap()
        .build()
        .unwrap();
    assert_eq!(out, vec![0x08, 0x00, 0xF7, 0xFD, 0x00, 0x01, 0x00, 0x01, 0x5A]);
}

#[test]
fn failing_fixup_aborts_the_rest_of_the_chain() {
    let mut fin = Finalization::default();
    // Registered first, would run last; it must never run.
    fin.add(Fixup::Append { value: 0x77 });
    // Registered last, runs first, and fails: two bytes are too short for
    // an ICMP header.
    fin.add(Fixup::IcmpChecksum { layer: 0 });
    let mut bytes = vec![1u8, 2];
    assert_eq!(fin.finalize(&mut bytes), Err(packet::Error::SmallBuffer));
    assert_eq!(bytes, vec![1, 2]);
}

#[test]
fn empty_finalization_returns_bytes_unchanged() {
    let fin = Finalization::default();
    let mut bytes = vec![9u8, 8, 7];
    fin.finalize(&mut bytes).unwrap();
    assert_eq!(bytes, vec![9, 8, 7]);
}
