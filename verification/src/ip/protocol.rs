//! The IP next-level protocol number.

use vstd::prelude::*;

verus! {

/// The protocol carried in an IP packet's payload.
#[derive(Eq, PartialEq, Copy, Clone, Debug, Structural)]
pub enum Protocol {
    ///
    Icmp,
    ///
    Tcp,
    ///
    Udp,
    ///
    Unknown(u8),
}

/// The protocol a number stands for.
pub open spec fn spec_protocol_from(v: u8) -> Protocol {
    if v == 1 {
        Protocol::Icmp
    } else if v == 6 {
        Protocol::Tcp
    } else if v == 17 {
        Protocol::Udp
    } else {
        Protocol::Unknown(v)
    }
}

/// The number a protocol is written as.
pub open spec fn spec_protocol_to(p: Protocol) -> u8 {
    match p {
        Protocol::Icmp => 1,
        Protocol::Tcp => 6,
        Protocol::Udp => 17,
        Protocol::Unknown(v) => v,
    }
}

/// Reading a protocol from a byte and writing it back is the identity.
pub proof fn lemma_protocol_round(v: u8)
    ensures
        spec_protocol_to(spec_protocol_from(v)) == v,
{
}

impl From<u8> for Protocol {
    fn from(value: u8) -> (r: Self) {
        match value {
            1 => Protocol::Icmp,
            6 => Protocol::Tcp,
            17 => Protocol::Udp,
            v => Protocol::Unknown(v),
        }
    }
}

impl vstd::std_specs::convert::FromSpecImpl<u8> for Protocol {
    open spec fn obeys_from_spec() -> bool {
        true
    }

    open spec fn from_spec(v: u8) -> Protocol {
        spec_protocol_from(v)
    }
}

impl From<Protocol> for u8 {
    fn from(value: Protocol) -> (r: Self) {
        match value {
            Protocol::Icmp => 1,
            Protocol::Tcp => 6,
            Protocol::Udp => 17,
            Protocol::Unknown(v) => v,
        }
    }
}

impl vstd::std_specs::convert::FromSpecImpl<Protocol> for u8 {
    open spec fn obeys_from_spec() -> bool {
        true
    }

    open spec fn from_spec(v: Protocol) -> u8 {
        spec_protocol_to(v)
    }
}

} // verus!
