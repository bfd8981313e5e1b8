//! ICMP codes: the per-kind refinement byte that follows the kind byte.

use vstd::prelude::*;

verus! {

/// Codes for Destination Unreachable packets.
#[derive(Eq, PartialEq, Copy, Clone, Debug, Structural)]
pub enum DestinationUnreachable {
    ///
    DestinationNetworkUnreachable,
    ///
    DestinationHostUnreachable,
    ///
    DestinationProtocolUnreachable,
    ///
    DestinationPortUnreachable,
    ///
    FragmentationRequired,
    ///
    SourceRouteFailed,
    ///
    DestinationNetworkUnknown,
    ///
    DestinationHostUnknown,
    ///
    SourceHostIsolated,
    ///
    NetworkAdministrativelyProhibited,
    ///
    HostAdministrativelyProhibited,
    ///
    NetworkUnreachableForTos,
    ///
    HostUnreachableForTos,
    ///
    CommunicationAdministrativelyProhibited,
    ///
    HostPrecedenceViolation,
    ///
    PrecedentCutoffInEffect,
    ///
    Unknown(u8),
}

/// Codes for Redirect Message packets.
#[derive(Eq, PartialEq, Copy, Clone, Debug, Structural)]
pub enum RedirectMessage {
    ///
    RedirectDatagramForNetwork,
    ///
    RedirectDatagramForHost,
    ///
    RedirectDatagramForTosAndNetwork,
    ///
    RedirectDatagramForTosAndHost,
    ///
    Unknown(u8),
}

/// Codes for Parameter Problem packets.
#[derive(Eq, PartialEq, Copy, Clone, Debug, Structural)]
pub enum ParameterProblem {
    ///
    PointerIndicatesError,
    ///
    MissingRequiredData,
    ///
    BadLength,
    ///
    Unknown(u8),
}

/// The Destination Unreachable code a byte stands for.
pub open spec fn spec_unreachable_from(v: u8) -> DestinationUnreachable {
    if v == 0 {
        DestinationUnreachable::DestinationNetworkUnreachable
    } else if v == 1 {
        DestinationUnreachable::DestinationHostUnreachable
    } else if v == 2 {
        DestinationUnreachable::DestinationProtocolUnreachable
    } else if v == 3 {
        DestinationUnreachable::DestinationPortUnreachable
    } else if v == 4 {
        DestinationUnreachable::FragmentationRequired
    } else if v == 5 {
        DestinationUnreachable::SourceRouteFailed
    } else if v == 6 {
        DestinationUnreachable::DestinationNetworkUnknown
    } else if v == 7 {
        DestinationUnreachable::DestinationHostUnknown
    } else if v == 8 {
        DestinationUnreachable::SourceHostIsolated
    } else if v == 9 {
        DestinationUnreachable::NetworkAdministrativelyProhibited
    } else if v == 10 {
        DestinationUnreachable::HostAdministrativelyProhibited
    } else if v == 11 {
        DestinationUnreachable::NetworkUnreachableForTos
    } else if v == 12 {
        DestinationUnreachable::HostUnreachableForTos
    } else if v == 13 {
        DestinationUnreachable::CommunicationAdministrativelyProhibited
    } else if v == 14 {
        DestinationUnreachable::HostPrecedenceViolation
    } else if v == 15 {
        DestinationUnreachable::PrecedentCutoffInEffect
    } else {
        DestinationUnreachable::Unknown(v)
    }
}

/// The byte a Destination Unreachable code is written as.
pub open spec fn spec_unreachable_to(c: DestinationUnreachable) -> u8 {
    match c {
        DestinationUnreachable::DestinationNetworkUnreachable => 0,
        DestinationUnreachable::DestinationHostUnreachable => 1,
        DestinationUnreachable::DestinationProtocolUnreachable => 2,
        DestinationUnreachable::DestinationPortUnreachable => 3,
        DestinationUnreachable::FragmentationRequired => 4,
        DestinationUnreachable::SourceRouteFailed => 5,
        DestinationUnreachable::DestinationNetworkUnknown => 6,
        DestinationUnreachable::DestinationHostUnknown => 7,
        DestinationUnreachable::SourceHostIsolated => 8,
        DestinationUnreachable::NetworkAdministrativelyProhibited => 9,
        DestinationUnreachable::HostAdministrativelyProhibited => 10,
        DestinationUnreachable::NetworkUnreachableForTos => 11,
        DestinationUnreachable::HostUnreachableForTos => 12,
        DestinationUnreachable::CommunicationAdministrativelyProhibited => 13,
        DestinationUnreachable::HostPrecedenceViolation => 14,
        DestinationUnreachable::PrecedentCutoffInEffect => 15,
        DestinationUnreachable::Unknown(v) => v,
    }
}

/// The Redirect Message code a byte stands for.
pub open spec fn spec_redirect_from(v: u8) -> RedirectMessage {
    if v == 0 {
        RedirectMessage::RedirectDatagramForNetwork
    } else if v == 1 {
        RedirectMessage::RedirectDatagramForHost
    } else if v == 2 {
        RedirectMessage::RedirectDatagramForTosAndNetwork
    } else if v == 3 {
        RedirectMessage::RedirectDatagramForTosAndHost
    } else {
        RedirectMessage::Unknown(v)
    }
}

/// The byte a Redirect Message code is written as.
pub open spec fn spec_redirect_to(c: RedirectMessage) -> u8 {
    match c {
        RedirectMessage::RedirectDatagramForNetwork => 0,
        RedirectMessage::RedirectDatagramForHost => 1,
        RedirectMessage::RedirectDatagramForTosAndNetwork => 2,
        RedirectMessage::RedirectDatagramForTosAndHost => 3,
        RedirectMessage::Unknown(v) => v,
    }
}

/// The Parameter Problem code a byte stands for.
pub open spec fn spec_parameter_from(v: u8) -> ParameterProblem {
    if v == 0 {
        ParameterProblem::PointerIndicatesError
    } else if v == 1 {
        ParameterProblem::MissingRequiredData
    } else if v == 2 {
        ParameterProblem::BadLength
    } else {
        ParameterProblem::Unknown(v)
    }
}

/// The byte a Parameter Problem code is written as.
pub open spec fn spec_parameter_to(c: ParameterProblem) -> u8 {
    match c {
        ParameterProblem::PointerIndicatesError => 0,
        ParameterProblem::MissingRequiredData => 1,
        ParameterProblem::BadLength => 2,
        ParameterProblem::Unknown(v) => v,
    }
}

/// Reading any code from a byte and writing it back is the identity.
pub proof fn lemma_code_round(v: u8)
    ensures
        spec_unreachable_to(spec_unreachable_from(v)) == v,
        spec_redirect_to(spec_redirect_from(v)) == v,
        spec_parameter_to(spec_parameter_from(v)) == v,
{
}

impl From<u8> for DestinationUnreachable {
    fn from(value: u8) -> (r: Self) {
        match value {
            0 => DestinationUnreachable::DestinationNetworkUnreachable,
            1 => DestinationUnreachable::DestinationHostUnreachable,
            2 => DestinationUnreachable::DestinationProtocolUnreachable,
            3 => DestinationUnreachable::DestinationPortUnreachable,
            4 => DestinationUnreachable::FragmentationRequired,
            5 => DestinationUnreachable::SourceRouteFailed,
            6 => DestinationUnreachable::DestinationNetworkUnknown,
            7 => DestinationUnreachable::DestinationHostUnknown,
            8 => DestinationUnreachable::SourceHostIsolated,
            9 => DestinationUnreachable::NetworkAdministrativelyProhibited,
            10 => DestinationUnreachable::HostAdministrativelyProhibited,
            11 => DestinationUnreachable::NetworkUnreachableForTos,
            12 => DestinationUnreachable::HostUnreachableForTos,
            13 => DestinationUnreachable::CommunicationAdministrativelyProhibited,
            14 => DestinationUnreachable::HostPrecedenceViolation,
            15 => DestinationUnreachable::PrecedentCutoffInEffect,
            v => DestinationUnreachable::Unknown(v),
        }
    }
}

impl vstd::std_specs::convert::FromSpecImpl<u8> for DestinationUnreachable {
    open spec fn obeys_from_spec() -> bool {
        true
    }

    open spec fn from_spec(v: u8) -> DestinationUnreachable {
        spec_unreachable_from(v)
    }
}

impl From<DestinationUnreachable> for u8 {
    fn from(value: DestinationUnreachable) -> (r: Self) {
        match value {
            DestinationUnreachable::DestinationNetworkUnreachable => 0,
            DestinationUnreachable::DestinationHostUnreachable => 1,
            DestinationUnreachable::DestinationProtocolUnreachable => 2,
            DestinationUnreachable::DestinationPortUnreachable => 3,
            DestinationUnreachable::FragmentationRequired => 4,
            DestinationUnreachable::SourceRouteFailed => 5,
            DestinationUnreachable::DestinationNetworkUnknown => 6,
            DestinationUnreachable::DestinationHostUnknown => 7,
            DestinationUnreachable::SourceHostIsolated => 8,
            DestinationUnreachable::NetworkAdministrativelyProhibited => 9,
            DestinationUnreachable::HostAdministrativelyProhibited => 10,
            DestinationUnreachable::NetworkUnreachableForTos => 11,
            DestinationUnreachable::HostUnreachableForTos => 12,
            DestinationUnreachable::CommunicationAdministrativelyProhibited => 13,
            DestinationUnreachable::HostPrecedenceViolation => 14,
            DestinationUnreachable::PrecedentCutoffInEffect => 15,
            DestinationUnreachable::Unknown(v) => v,
        }
    }
}

impl vstd::std_specs::convert::FromSpecImpl<DestinationUnreachable> for u8 {
    open spec fn obeys_from_spec() -> bool {
        true
    }

    open spec fn from_spec(v: DestinationUnreachable) -> u8 {
        spec_unreachable_to(v)
    }
}

impl From<u8> for RedirectMessage {
    fn from(value: u8) -> (r: Self) {
        match value {
            0 => RedirectMessage::RedirectDatagramForNetwork,
            1 => RedirectMessage::RedirectDatagramForHost,
            2 => RedirectMessage::RedirectDatagramForTosAndNetwork,
            3 => RedirectMessage::RedirectDatagramForTosAndHost,
            v => RedirectMessage::Unknown(v),
        }
    }
}

impl vstd::std_specs::convert::FromSpecImpl<u8> for RedirectMessage {
    open spec fn obeys_from_spec() -> bool {
        true
    }

    open spec fn from_spec(v: u8) -> RedirectMessage {
        spec_redirect_from(v)
    }
}

impl From<RedirectMessage> for u8 {
    fn from(value: RedirectMessage) -> (r: Self) {
        match value {
            RedirectMessage::RedirectDatagramForNetwork => 0,
            RedirectMessage::RedirectDatagramForHost => 1,
            RedirectMessage::RedirectDatagramForTosAndNetwork => 2,
            RedirectMessage::RedirectDatagramForTosAndHost => 3,
            RedirectMessage::Unknown(v) => v,
        }
    }
}

impl vstd::std_specs::convert::FromSpecImpl<RedirectMessage> for u8 {
    open spec fn obeys_from_spec() -> bool {
        true
    }

    open spec fn from_spec(v: RedirectMessage) -> u8 {
        spec_redirect_to(v)
    }
}

impl From<u8> for ParameterProblem {
    fn from(value: u8) -> (r: Self) {
        match value {
            0 => ParameterProblem::PointerIndicatesError,
            1 => ParameterProblem::MissingRequiredData,
            2 => ParameterProblem::BadLength,
            v => ParameterProblem::Unknown(v),
        }
    }
}

impl vstd::std_specs::convert::FromSpecImpl<u8> for ParameterProblem {
    open spec fn obeys_from_spec() -> bool {
        true
    }

    open spec fn from_spec(v: u8) -> ParameterProblem {
        spec_parameter_from(v)
    }
}

impl From<ParameterProblem> for u8 {
    fn from(value: ParameterProblem) -> (r: Self) {
        match value {
            ParameterProblem::PointerIndicatesError => 0,
            ParameterProblem::MissingRequiredData => 1,
            ParameterProblem::BadLength => 2,
            ParameterProblem::Unknown(v) => v,
        }
    }
}

impl vstd::std_specs::convert::FromSpecImpl<ParameterProblem> for u8 {
    open spec fn obeys_from_spec() -> bool {
        true
    }

    open spec fn from_spec(v: ParameterProblem) -> u8 {
        spec_parameter_to(v)
    }
}

} // verus!
