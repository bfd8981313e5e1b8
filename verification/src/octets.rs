//! The storage a packet view can wrap: anything that exposes its bytes.

use vstd::prelude::*;

verus! {

/// Byte-backed storage: an owned vector or a borrowed slice, seen as one
/// sequence of bytes.
pub trait Octets {
    /// The bytes as a sequence.
    spec fn view_octets(&self) -> Seq<u8>;

    /// The bytes as a slice.
    fn octets(&self) -> (r: &[u8])
        ensures
            r@ == self.view_octets(),
    ;
}

impl Octets for Vec<u8> {
    open spec fn view_octets(&self) -> Seq<u8> {
        self@
    }

    fn octets(&self) -> (r: &[u8]) {
        self.as_slice()
    }
}

impl<'x> Octets for &'x [u8] {
    open spec fn view_octets(&self) -> Seq<u8> {
        (*self)@
    }

    fn octets(&self) -> (r: &[u8]) {
        *self
    }
}

} // verus!
