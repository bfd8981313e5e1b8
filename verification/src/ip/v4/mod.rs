//! IPv4: packet view, builder, and header checksum.

mod packet;
pub use self::packet::spec_header_len;
pub use self::packet::spec_total_len;
pub use self::packet::spec_valid;
pub use self::packet::Packet;

mod builder;
pub use self::builder::Builder;

use vstd::prelude::*;

use crate::checksum::fold_buffer;
use crate::checksum::spec_checksum;

verus! {

/// Calculate the checksum for an IPv4 header: the Internet checksum of the
/// header bytes with the checksum field (bytes ten and eleven) excluded.
pub fn checksum(buffer: &[u8]) -> (r: u16)
    ensures
        r == spec_checksum(buffer@, 5),
{
    let folded = fold_buffer(0xffff, buffer, 5);
    (0xffff - folded) as u16
}

} // verus!
