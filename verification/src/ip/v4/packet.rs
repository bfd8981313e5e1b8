//! The IPv4 packet view: a header of twenty to sixty bytes, sliced by the
//! header-length nibble.

use vstd::prelude::*;

use crate::error::Error;
use crate::ip::spec_protocol_from;
use crate::ip::Protocol;
use crate::octets::Octets;
use crate::size::header::Min;
use crate::wire::spec_be16;
use crate::wire::read_u16_be;

verus! {

/// The header length in bytes: four times the low nibble of the first byte.
pub open spec fn spec_header_len(b: Seq<u8>) -> int {
    4 * (b[0] & 0x0f)
}

/// The total-length field: bytes two and three, big-endian.  Header and
/// payload together span exactly this many bytes; anything behind them is
/// trailing padding outside the logical packet.
pub open spec fn spec_total_len(b: Seq<u8>) -> int {
    spec_be16(b[2], b[3]) as int
}

/// Whether `b` holds an IPv4 packet: at least twenty bytes, version four,
/// a header length within bounds, and a total length that covers the
/// header and fits the buffer.
pub open spec fn spec_valid(b: Seq<u8>) -> bool {
    &&& b.len() >= 20
    &&& b[0] >> 4 == 4
    &&& (b[0] & 0x0f) >= 5
    &&& spec_header_len(b) <= spec_total_len(b) <= b.len()
}

/// An IPv4 packet view over byte storage `B`.
pub struct Packet<B: Octets> {
    buffer: B,
}

impl<B: Octets> Packet<B> {
    /// The wrapped bytes.
    pub closed spec fn bytes(&self) -> Seq<u8> {
        self.buffer.view_octets()
    }

    /// Whether the wrapped bytes passed validation.
    pub open spec fn wf(&self) -> bool {
        spec_valid(self.bytes())
    }

    /// Validate `buffer` as an IPv4 packet: reject a buffer under the
    /// header minimum with a small-buffer error, and a wrong version or
    /// header length with an invalid-packet error.
    pub fn new(buffer: B) -> (r: Result<Packet<B>, Error>)
        ensures
            r is Ok <==> spec_valid(buffer.view_octets()),
            r matches Ok(p) ==> p.bytes() == buffer.view_octets(),
            r matches Err(e) ==> e == (if buffer.view_octets().len() < 20 {
                Error::SmallBuffer
            } else {
                Error::InvalidPacket
            }),
    {
        let n = buffer.octets().len();
        if n < Self::min() {
            return Err(Error::SmallBuffer);
        }
        let first = buffer.octets()[0];
        if first >> 4 != 4 {
            return Err(Error::InvalidPacket);
        }
        let ihl = first & 0x0f;
        if ihl < 5 {
            return Err(Error::InvalidPacket);
        }
        let total = read_u16_be(buffer.octets(), 2) as usize;
        if total < (ihl as usize) * 4 || total > n {
            return Err(Error::InvalidPacket);
        }
        Ok(Packet { buffer })
    }

    /// The header length in bytes.
    pub fn header_len(&self) -> (r: usize)
        requires
            self.wf(),
        ensures
            r == spec_header_len(self.bytes()),
    {
        ((self.buffer.octets()[0] & 0x0f) as usize) * 4
    }

    /// The header: the first `header_len` bytes.
    pub fn header(&self) -> (r: &[u8])
        requires
            self.wf(),
        ensures
            r@ == self.bytes().subrange(0, spec_header_len(self.bytes())),
    {
        let hl = self.header_len();
        &self.buffer.octets()[0..hl]
    }

    /// The payload: everything between the header and the total-length
    /// mark; trailing padding behind it is not part of the packet.
    pub fn payload(&self) -> (r: &[u8])
        requires
            self.wf(),
        ensures
            r@ == self.bytes().subrange(spec_header_len(self.bytes()), spec_total_len(self.bytes())),
    {
        let hl = self.header_len();
        let tl = read_u16_be(self.buffer.octets(), 2) as usize;
        &self.buffer.octets()[hl..tl]
    }

    /// The total-length field: bytes two and three, big-endian.
    pub fn length(&self) -> (r: u16)
        requires
            self.wf(),
        ensures
            r == spec_be16(self.bytes()[2], self.bytes()[3]),
    {
        read_u16_be(self.buffer.octets(), 2)
    }

    /// The header checksum field: bytes ten and eleven, big-endian.
    pub fn checksum(&self) -> (r: u16)
        requires
            self.wf(),
        ensures
            r == spec_be16(self.bytes()[10], self.bytes()[11]),
    {
        read_u16_be(self.buffer.octets(), 10)
    }

    /// The next-level protocol: byte nine.
    pub fn protocol(&self) -> (r: Protocol)
        requires
            self.wf(),
        ensures
            r == spec_protocol_from(self.bytes()[9]),
    {
        Protocol::from(self.buffer.octets()[9])
    }

    /// The source address: bytes twelve to fifteen.
    pub fn source(&self) -> (r: [u8; 4])
        requires
            self.wf(),
        ensures
            r@ == self.bytes().subrange(12, 16),
    {
        let o = self.buffer.octets();
        let r: [u8; 4] = [o[12], o[13], o[14], o[15]];
        proof {
            assert(r@ =~= self.bytes().subrange(12, 16));
        }
        r
    }

    /// The destination address: bytes sixteen to nineteen.
    pub fn destination(&self) -> (r: [u8; 4])
        requires
            self.wf(),
        ensures
            r@ == self.bytes().subrange(16, 20),
    {
        let o = self.buffer.octets();
        let r: [u8; 4] = [o[16], o[17], o[18], o[19]];
        proof {
            assert(r@ =~= self.bytes().subrange(16, 20));
        }
        r
    }

    /// Copy the packet into owned storage.
    pub fn to_owned(&self) -> (r: Packet<Vec<u8>>)
        requires
            self.wf(),
        ensures
            r.bytes() == self.bytes(),
            r.wf(),
    {
        let copied = vstd::slice::slice_to_vec(self.buffer.octets());
        match Packet::new(copied) {
            Ok(p) => p,
            Err(_) => vstd::pervasive::unreached(),
        }
    }
}

impl<B: Octets> crate::size::header::Min for Packet<B> {
    open spec fn spec_min() -> usize {
        20
    }

    fn min() -> (r: usize) {
        20
    }
}

impl<B: Octets> crate::size::header::Max for Packet<B> {
    open spec fn spec_max() -> usize {
        60
    }

    fn max() -> (r: usize) {
        60
    }
}

impl<B: Octets> crate::size::header::Size for Packet<B> {
    open spec fn size_ok(&self) -> bool {
        self.wf()
    }

    open spec fn spec_size(&self) -> int {
        spec_header_len(self.bytes())
    }

    fn size(&self) -> (r: usize) {
        self.header_len()
    }
}

impl<B: Octets> crate::size::payload::Min for Packet<B> {
    open spec fn spec_min() -> usize {
        0
    }

    fn min() -> (r: usize) {
        0
    }
}

impl<B: Octets> crate::size::payload::Size for Packet<B> {
    open spec fn size_ok(&self) -> bool {
        self.wf()
    }

    open spec fn spec_size(&self) -> int {
        spec_total_len(self.bytes()) - spec_header_len(self.bytes())
    }

    fn size(&self) -> (r: usize) {
        let tl = read_u16_be(self.buffer.octets(), 2) as usize;
        tl - self.header_len()
    }
}

impl<B: Octets> crate::size::Size for Packet<B> {
    open spec fn size_ok(&self) -> bool {
        self.wf()
    }

    open spec fn spec_size(&self) -> int {
        spec_total_len(self.bytes())
    }

    fn size(&self) -> (r: usize) {
        read_u16_be(self.buffer.octets(), 2) as usize
    }
}

} // verus!
