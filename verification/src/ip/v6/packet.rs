//! The IPv6 packet view: parsing is not implemented, and every attempt
//! fails loudly with an invalid-packet error.

use vstd::prelude::*;

use crate::error::Error;
use crate::octets::Octets;

verus! {

/// An IPv6 packet view; only the unchecked wrapper can produce one.
#[derive(Clone)]
pub struct Packet<B: Octets> {
    buffer: B,
}

impl<B: Octets> Packet<B> {
    /// The wrapped bytes.
    pub closed spec fn bytes(&self) -> Seq<u8> {
        self.buffer.view_octets()
    }

    /// Wrap a buffer as an IPv6 packet without checking it.
    pub fn unchecked(buffer: B) -> (r: Packet<B>)
        ensures
            r.bytes() == buffer.view_octets(),
    {
        Packet { buffer }
    }

    /// Parse an IPv6 packet without checking the payload: not implemented,
    /// so every buffer is rejected with an invalid-packet error.
    pub fn no_payload(buffer: B) -> (r: Result<Packet<B>, Error>)
        ensures
            r == Err::<Packet<B>, Error>(Error::InvalidPacket),
    {
        let _ = Packet::unchecked(buffer);
        Err(Error::InvalidPacket)
    }

    /// Parse an IPv6 packet: not implemented, so every buffer is rejected
    /// with an invalid-packet error.
    pub fn new(buffer: B) -> (r: Result<Packet<B>, Error>)
        ensures
            r == Err::<Packet<B>, Error>(Error::InvalidPacket),
    {
        Packet::no_payload(buffer)
    }

    /// Copy the packet into owned storage.
    pub fn to_owned(&self) -> (r: Packet<Vec<u8>>)
        ensures
            r.bytes() == self.bytes(),
    {
        Packet::unchecked(vstd::slice::slice_to_vec(self.buffer.octets()))
    }
}

impl<B: Octets> crate::size::header::Min for Packet<B> {
    open spec fn spec_min() -> usize {
        0
    }

    fn min() -> (r: usize) {
        0
    }
}

impl<B: Octets> crate::size::header::Max for Packet<B> {
    open spec fn spec_max() -> usize {
        0
    }

    fn max() -> (r: usize) {
        0
    }
}

impl<B: Octets> crate::size::header::Size for Packet<B> {
    open spec fn size_ok(&self) -> bool {
        true
    }

    open spec fn spec_size(&self) -> int {
        0
    }

    fn size(&self) -> (r: usize) {
        0
    }
}

impl<B: Octets> crate::size::payload::Min for Packet<B> {
    open spec fn spec_min() -> usize {
        0
    }

    fn min() -> (r: usize) {
        0
    }
}

impl<B: Octets> crate::size::payload::Max for Packet<B> {
    open spec fn spec_max() -> usize {
        0
    }

    fn max() -> (r: usize) {
        0
    }
}

impl<B: Octets> crate::size::payload::Size for Packet<B> {
    open spec fn size_ok(&self) -> bool {
        true
    }

    open spec fn spec_size(&self) -> int {
        0
    }

    fn size(&self) -> (r: usize) {
        0
    }
}

impl<B: Octets> crate::size::Size for Packet<B> {
    open spec fn size_ok(&self) -> bool {
        true
    }

    open spec fn spec_size(&self) -> int {
        0
    }

    fn size(&self) -> (r: usize) {
        0
    }
}

} // verus!
