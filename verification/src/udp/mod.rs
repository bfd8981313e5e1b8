//! UDP: the checksum over a pseudo-header derived from the enclosing IP
//! packet.

use vstd::prelude::*;

use crate::checksum::fold_buffer;
use crate::checksum::fold_word;
use crate::checksum::fold_words_from;
use crate::checksum::num_words;
use crate::ip;
use crate::octets::Octets;
use crate::wire::spec_hi;
use crate::wire::spec_lo;

verus! {

/// The IPv4 pseudo-header folded into a UDP checksum: source address,
/// destination address, a zero byte, the UDP protocol number, and the
/// segment length.
pub open spec fn spec_pseudo_v4(src: Seq<u8>, dst: Seq<u8>, len: u16) -> Seq<u8> {
    src + dst + seq![0u8, 17u8, spec_hi(len), spec_lo(len)]
}

/// The UDP checksum over an IPv4 pseudo-header and the segment `b`, with
/// the checksum field (bytes six and seven of the segment) excluded and a
/// trailing odd byte zero-padded to a full word.
pub open spec fn spec_checksum_v4(src: Seq<u8>, dst: Seq<u8>, b: Seq<u8>) -> u16 {
    let pseudo = spec_pseudo_v4(src, dst, b.len() as u16);
    let acc1 = fold_words_from(0xffff, pseudo, pseudo.len() as int, num_words(pseudo));
    let acc2 = fold_words_from(acc1, b, 3, num_words(b));
    let acc3 = if b.len() % 2 == 1 {
        fold_word(acc2, b[b.len() - 1] * 256)
    } else {
        acc2
    };
    (0xffff - acc3) as u16
}

/// Calculate the checksum for a UDP packet.
///
/// The checksum includes a pseudo-header from the enclosing IP packet, so
/// one has to be given; the IPv6 pseudo-header is not implemented, and a
/// caller cannot pass an IPv6 packet here.
pub fn checksum<B: Octets>(ip: &ip::Packet<B>, buffer: &[u8]) -> (r: u16)
    requires
        ip matches ip::Packet::V4(p) && p.wf(),
        buffer@.len() <= 0xffff,
    ensures
        ip matches ip::Packet::V4(p) ==> r == spec_checksum_v4(
            p.bytes().subrange(12, 16),
            p.bytes().subrange(16, 20),
            buffer@,
        ),
{
    match ip {
        ip::Packet::V4(p) => {
            let src = p.source();
            let dst = p.destination();
            let n = buffer.len();
            let mut prefix: Vec<u8> = Vec::new();
            prefix.push(src[0]);
            prefix.push(src[1]);
            prefix.push(src[2]);
            prefix.push(src[3]);
            prefix.push(dst[0]);
            prefix.push(dst[1]);
            prefix.push(dst[2]);
            prefix.push(dst[3]);
            prefix.push(0u8);
            prefix.push(17u8);
            prefix.push((n / 256) as u8);
            prefix.push((n % 256) as u8);
            proof {
                assert(prefix@ =~= spec_pseudo_v4(
                    p.bytes().subrange(12, 16),
                    p.bytes().subrange(16, 20),
                    buffer@.len() as u16,
                ));
            }
            let acc1 = fold_buffer(0xffff, prefix.as_slice(), 12);
            let acc2 = fold_buffer(acc1, buffer, 3);
            let acc3: u32 = if n % 2 == 1 {
                let w: u32 = (buffer[n - 1] as u32) * 256;
                let grown = acc2 + w;
                if grown > 0xffff {
                    grown - 0xffff
                } else {
                    grown
                }
            } else {
                acc2
            };
            (0xffff - acc3) as u16
        },
        ip::Packet::V6(_) => vstd::pervasive::unreached(),
    }
}

} // verus!
