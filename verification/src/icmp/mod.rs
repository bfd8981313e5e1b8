//! ICMP: parsing and building of control messages, and their checksum.

pub mod code;

mod kind;
pub use self::kind::spec_kind_from;
pub use self::kind::spec_kind_to;
pub use self::kind::Kind;

pub(crate) mod builder;

pub mod echo;

pub mod timestamp;

use vstd::prelude::*;

use crate::checksum::fold_buffer;
use crate::checksum::spec_checksum;

verus! {

/// Calculate the checksum for an ICMP packet: the Internet checksum of the
/// whole buffer with the checksum field (bytes two and three) excluded.
pub fn checksum(buffer: &[u8]) -> (r: u16)
    ensures
        r == spec_checksum(buffer@, 1),
{
    let folded = fold_buffer(0xffff, buffer, 1);
    (0xffff - folded) as u16
}

} // verus!
