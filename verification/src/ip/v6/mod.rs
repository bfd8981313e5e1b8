//! IPv6: an explicit stub.  Parsing and building fail loudly with an
//! invalid-packet error rather than silently producing wrong bytes.

mod packet;
pub use self::packet::Packet;

mod builder;
pub use self::builder::Builder;
