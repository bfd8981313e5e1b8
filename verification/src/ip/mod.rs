//! IP: IPv4 parsing and building; the IPv6 path is an explicit, loud stub.

mod protocol;
pub use self::protocol::spec_protocol_from;
pub use self::protocol::spec_protocol_to;
pub use self::protocol::Protocol;

mod packet;
pub use self::packet::Packet;

mod builder;
pub use self::builder::Builder;

pub mod v4;

pub mod v6;
