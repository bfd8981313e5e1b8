use packet::buffer::{Dynamic, Slice};
use packet::Buffer;

#[test]
fn dynamic_layers_are_sealed() {
    let mut b = Dynamic::default();
    b.next(4).unwrap();
    {
        let d = b.data_mut();
        d[0] = 1;
        d[1] = 2;
        d[2] = 3;
        d[3] = 4;
    }
    b.next(4).unwrap();
    // The new layer's window holds only its own four zeroed bytes: nothing
    // of the sealed first layer is visible.
    assert_eq!(b.data(), &[0, 0, 0, 0]);
    assert_eq!(b.data_mut().len(), 4);
    b.data_mut()[0] = 9;
    assert_eq!(b.used(), 8);
    assert_eq!(b.into_inner(), vec![1, 2, 3, 4, 9, 0, 0, 0]);
}

#[test]
fn dynamic_more_grows_current_layer() {
    let mut b = Dynamic::default();
    b.next(2).unwrap();
    b.more(3).unwrap();
    assert_eq!(b.data().len(), 5);
    assert_eq!(b.used(), 5);
}

#[test]
fn slice_rejects_growth_beyond_capacity() {
    let mut b = Slice::new(vec![0u8; 10]);
    b.next(8).unwrap();
    {
        let d = b.data_mut();
        d[0] = 0xAA;
        d[7] = 0xBB;
    }
    // Only two bytes of capacity are left.
    assert!(b.more(5).is_err());
    assert!(b.next(3).is_err());
    // A failed call corrupts nothing.
    assert_eq!(b.used(), 8);
    assert_eq!(b.data()[0], 0xAA);
    assert_eq!(b.data()[7], 0xBB);
    b.more(2).unwrap();
    assert_eq!(b.used(), 10);
    assert!(b.more(1).is_err());
    assert_eq!(b.into_inner().len(), 10);
}

#[test]
fn slice_layers_are_sealed() {
    let mut b = Slice::new(vec![0xEEu8; 8]);
    b.next(4).unwrap();
    b.data_mut()[0] = 7;
    b.next(4).unwrap();
    assert_eq!(b.data(), &[0, 0, 0, 0]);
    let out = b.into_inner();
    assert_eq!(out[0], 7);
}

#[test]
fn slice_into_inner_drops_uncommitted_capacity() {
    // Only the committed bytes come out; the unused spare tail does not.
    let mut b = Slice::new(vec![0xEEu8; 10]);
    b.next(3).unwrap();
    b.data_mut()[1] = 5;
    assert_eq!(b.into_inner(), vec![0, 5, 0]);
}

// The same build sequence, written once, applied to either buffer kind.
fn build_sequence<B: Buffer>(b: &mut B) {
    b.next(2).unwrap();
    b.data_mut()[0] = 1;
    b.more(1).unwrap();
    b.data_mut()[2] = 3;
    b.next(3).unwrap();
    b.data_mut()[1] = 5;
}

#[test]
fn dynamic_and_slice_build_identical_bytes() {
    let mut d = Dynamic::default();
    let mut s = Slice::new(vec![0u8; 6]);
    build_sequence(&mut d);
    build_sequence(&mut s);
    assert_eq!(d.into_inner(), s.into_inner());
}
