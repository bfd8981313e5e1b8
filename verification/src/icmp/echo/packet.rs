//! The Echo Request/Reply packet view: an eight-byte header of kind, code,
//! checksum, identifier and sequence number, followed by the payload.

use vstd::prelude::*;

use crate::error::Error;
use crate::icmp::Kind;
use crate::octets::Octets;
use crate::size::header::Min;
use crate::wire::spec_be16;
use crate::wire::spec_hi;
use crate::wire::spec_lo;
use crate::wire::read_u16_be;

verus! {

/// Whether `b` holds an Echo packet: at least the eight header bytes, and
/// an Echo Request or Echo Reply kind byte.
pub open spec fn spec_valid(b: Seq<u8>) -> bool {
    b.len() >= 8 && (b[0] == 8 || b[0] == 0)
}

/// Whether the kind byte says Echo Request rather than Echo Reply.
pub open spec fn spec_is_request(b: Seq<u8>) -> bool {
    b[0] == 8
}

/// The identifier field: bytes four and five, big-endian.
pub open spec fn spec_identifier(b: Seq<u8>) -> u16 {
    spec_be16(b[4], b[5])
}

/// The sequence field: bytes six and seven, big-endian.
pub open spec fn spec_sequence(b: Seq<u8>) -> u16 {
    spec_be16(b[6], b[7])
}

/// The bytes of an Echo packet with the given fields, checksum `ck`, and
/// payload `pl`: what a builder writes and a view reads.
pub open spec fn spec_packet_bytes(req: bool, ident: u16, seqno: u16, pl: Seq<u8>, ck: u16) -> Seq<
    u8,
> {
    seq![
        if req {
            8u8
        } else {
            0u8
        },
        0u8,
        spec_hi(ck),
        spec_lo(ck),
        spec_hi(ident),
        spec_lo(ident),
        spec_hi(seqno),
        spec_lo(seqno),
    ] + pl
}

/// Round trip: parsing the bytes a builder wrote for the given field values
/// yields those same field values back through the accessors.
pub proof fn lemma_echo_round_trip(req: bool, ident: u16, seqno: u16, pl: Seq<u8>, ck: u16)
    ensures
        spec_valid(spec_packet_bytes(req, ident, seqno, pl, ck)),
        spec_is_request(spec_packet_bytes(req, ident, seqno, pl, ck)) == req,
        spec_identifier(spec_packet_bytes(req, ident, seqno, pl, ck)) == ident,
        spec_sequence(spec_packet_bytes(req, ident, seqno, pl, ck)) == seqno,
        spec_packet_bytes(req, ident, seqno, pl, ck).subrange(
            8,
            spec_packet_bytes(req, ident, seqno, pl, ck).len() as int,
        ) == pl,
{
    let b = spec_packet_bytes(req, ident, seqno, pl, ck);
    crate::wire::lemma_be16_round(ident);
    crate::wire::lemma_be16_round(seqno);
    assert(b.subrange(8, b.len() as int) =~= pl);
}

/// An Echo Request/Reply packet view over byte storage `B`.
pub struct Packet<B: Octets> {
    buffer: B,
}

impl<B: Octets> Packet<B> {
    /// The wrapped bytes.
    pub closed spec fn bytes(&self) -> Seq<u8> {
        self.buffer.view_octets()
    }

    /// Whether the wrapped bytes passed validation.
    pub open spec fn wf(&self) -> bool {
        spec_valid(self.bytes())
    }

    /// Validate `buffer` as an Echo packet: reject a buffer under the
    /// header minimum with a small-buffer error, and any other kind byte
    /// with an invalid-packet error.
    pub fn new(buffer: B) -> (r: Result<Packet<B>, Error>)
        ensures
            r is Ok <==> spec_valid(buffer.view_octets()),
            r matches Ok(p) ==> p.bytes() == buffer.view_octets(),
            r matches Err(e) ==> e == (if buffer.view_octets().len() < 8 {
                Error::SmallBuffer
            } else {
                Error::InvalidPacket
            }),
    {
        if buffer.octets().len() < Self::min() {
            return Err(Error::SmallBuffer);
        }
        let kind = Kind::from(buffer.octets()[0]);
        match kind {
            Kind::EchoRequest => Ok(Packet { buffer }),
            Kind::EchoReply => Ok(Packet { buffer }),
            _ => Err(Error::InvalidPacket),
        }
    }

    /// Copy the packet into owned storage.
    pub fn to_owned(&self) -> (r: Packet<Vec<u8>>)
        requires
            self.wf(),
        ensures
            r.bytes() == self.bytes(),
            r.wf(),
    {
        let copied = vstd::slice::slice_to_vec(self.buffer.octets());
        match Packet::new(copied) {
            Ok(p) => p,
            Err(_) => vstd::pervasive::unreached(),
        }
    }

    /// The header: always the first eight bytes.
    pub fn header(&self) -> (r: &[u8])
        requires
            self.wf(),
        ensures
            r@ == self.bytes().subrange(0, 8),
    {
        &self.buffer.octets()[0..8]
    }

    /// The payload: everything after the header.
    pub fn payload(&self) -> (r: &[u8])
        requires
            self.wf(),
        ensures
            r@ == self.bytes().subrange(8, self.bytes().len() as int),
    {
        let n = self.buffer.octets().len();
        &self.buffer.octets()[8..n]
    }

    /// Whether this is an Echo Request.
    pub fn is_request(&self) -> (r: bool)
        requires
            self.wf(),
        ensures
            r == spec_is_request(self.bytes()),
    {
        Kind::from(self.buffer.octets()[0]) == Kind::EchoRequest
    }

    /// Whether this is an Echo Reply.
    pub fn is_reply(&self) -> (r: bool)
        requires
            self.wf(),
        ensures
            r == !spec_is_request(self.bytes()),
    {
        Kind::from(self.buffer.octets()[0]) == Kind::EchoReply
    }

    /// The packet identifier.
    pub fn identifier(&self) -> (r: u16)
        requires
            self.wf(),
        ensures
            r == spec_identifier(self.bytes()),
    {
        read_u16_be(self.buffer.octets(), 4)
    }

    /// The packet sequence number.
    pub fn sequence(&self) -> (r: u16)
        requires
            self.wf(),
        ensures
            r == spec_sequence(self.bytes()),
    {
        read_u16_be(self.buffer.octets(), 6)
    }
}

impl<B: Octets> crate::size::header::Min for Packet<B> {
    open spec fn spec_min() -> usize {
        8
    }

    fn min() -> (r: usize) {
        8
    }
}

impl<B: Octets> crate::size::header::Max for Packet<B> {
    open spec fn spec_max() -> usize {
        8
    }

    fn max() -> (r: usize) {
        8
    }
}

impl<B: Octets> crate::size::header::Size for Packet<B> {
    open spec fn size_ok(&self) -> bool {
        self.wf()
    }

    open spec fn spec_size(&self) -> int {
        8
    }

    fn size(&self) -> (r: usize) {
        8
    }
}

impl<B: Octets> crate::size::payload::Min for Packet<B> {
    open spec fn spec_min() -> usize {
        0
    }

    fn min() -> (r: usize) {
        0
    }
}

impl<B: Octets> crate::size::payload::Size for Packet<B> {
    open spec fn size_ok(&self) -> bool {
        self.wf()
    }

    open spec fn spec_size(&self) -> int {
        self.bytes().len() - 8
    }

    fn size(&self) -> (r: usize) {
        self.buffer.octets().len() - 8
    }
}

impl<B: Octets> crate::size::Size for Packet<B> {
    open spec fn size_ok(&self) -> bool {
        self.wf()
    }

    open spec fn spec_size(&self) -> int {
        self.bytes().len() as int
    }

    fn size(&self) -> (r: usize) {
        self.buffer.octets().len()
    }
}

} // verus!
