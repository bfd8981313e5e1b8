//! The ICMP message kind: the discriminant byte at the start of every ICMP
//! header.

use vstd::prelude::*;

verus! {

/// The kind of an ICMP message.
#[derive(Eq, PartialEq, Copy, Clone, Debug, Structural)]
pub enum Kind {
    ///
    EchoReply,
    ///
    DestinationUnreachable,
    ///
    SourceQuench,
    ///
    RedirectMessage,
    ///
    EchoRequest,
    ///
    RouterAdvertisement,
    ///
    RouterSolicitation,
    ///
    TimeExceeded,
    ///
    ParameterProblem,
    ///
    TimestampRequest,
    ///
    TimestampReply,
    ///
    InformationRequest,
    ///
    InformationReply,
    ///
    Unknown(u8),
}

/// The kind a discriminant byte stands for.
pub open spec fn spec_kind_from(v: u8) -> Kind {
    if v == 0 {
        Kind::EchoReply
    } else if v == 3 {
        Kind::DestinationUnreachable
    } else if v == 4 {
        Kind::SourceQuench
    } else if v == 5 {
        Kind::RedirectMessage
    } else if v == 8 {
        Kind::EchoRequest
    } else if v == 9 {
        Kind::RouterAdvertisement
    } else if v == 10 {
        Kind::RouterSolicitation
    } else if v == 11 {
        Kind::TimeExceeded
    } else if v == 12 {
        Kind::ParameterProblem
    } else if v == 13 {
        Kind::TimestampRequest
    } else if v == 14 {
        Kind::TimestampReply
    } else if v == 15 {
        Kind::InformationRequest
    } else if v == 16 {
        Kind::InformationReply
    } else {
        Kind::Unknown(v)
    }
}

/// The discriminant byte a kind is written as.
pub open spec fn spec_kind_to(k: Kind) -> u8 {
    match k {
        Kind::EchoReply => 0,
        Kind::DestinationUnreachable => 3,
        Kind::SourceQuench => 4,
        Kind::RedirectMessage => 5,
        Kind::EchoRequest => 8,
        Kind::RouterAdvertisement => 9,
        Kind::RouterSolicitation => 10,
        Kind::TimeExceeded => 11,
        Kind::ParameterProblem => 12,
        Kind::TimestampRequest => 13,
        Kind::TimestampReply => 14,
        Kind::InformationRequest => 15,
        Kind::InformationReply => 16,
        Kind::Unknown(v) => v,
    }
}

/// Reading a kind from a byte and writing it back is the identity.
pub proof fn lemma_kind_round(v: u8)
    ensures
        spec_kind_to(spec_kind_from(v)) == v,
{
}

impl From<u8> for Kind {
    fn from(value: u8) -> (r: Self) {
        match value {
            0 => Kind::EchoReply,
            3 => Kind::DestinationUnreachable,
            4 => Kind::SourceQuench,
            5 => Kind::RedirectMessage,
            8 => Kind::EchoRequest,
            9 => Kind::RouterAdvertisement,
            10 => Kind::RouterSolicitation,
            11 => Kind::TimeExceeded,
            12 => Kind::ParameterProblem,
            13 => Kind::TimestampRequest,
            14 => Kind::TimestampReply,
            15 => Kind::InformationRequest,
            16 => Kind::InformationReply,
            v => Kind::Unknown(v),
        }
    }
}

impl vstd::std_specs::convert::FromSpecImpl<u8> for Kind {
    open spec fn obeys_from_spec() -> bool {
        true
    }

    open spec fn from_spec(v: u8) -> Kind {
        spec_kind_from(v)
    }
}

impl From<Kind> for u8 {
    fn from(value: Kind) -> (r: Self) {
        match value {
            Kind::EchoReply => 0,
            Kind::DestinationUnreachable => 3,
            Kind::SourceQuench => 4,
            Kind::RedirectMessage => 5,
            Kind::EchoRequest => 8,
            Kind::RouterAdvertisement => 9,
            Kind::RouterSolicitation => 10,
            Kind::TimeExceeded => 11,
            Kind::ParameterProblem => 12,
            Kind::TimestampRequest => 13,
            Kind::TimestampReply => 14,
            Kind::InformationRequest => 15,
            Kind::InformationReply => 16,
            Kind::Unknown(v) => v,
        }
    }
}

impl vstd::std_specs::convert::FromSpecImpl<Kind> for u8 {
    open spec fn obeys_from_spec() -> bool {
        true
    }

    open spec fn from_spec(v: Kind) -> u8 {
        spec_kind_to(v)
    }
}

} // verus!
