//! A parsed IP packet of either version.

use vstd::prelude::*;

use crate::octets::Octets;

verus! {

/// An IP packet: IPv4, or the unimplemented IPv6.
pub enum Packet<B: Octets> {
    /// An IPv4 packet.
    V4(crate::ip::v4::Packet<B>),
    /// An IPv6 packet.
    V6(crate::ip::v6::Packet<B>),
}

} // verus!
