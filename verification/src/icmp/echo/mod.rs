//! ICMP Echo Request/Reply: view and builder.

mod packet;
pub use self::packet::lemma_echo_round_trip;
pub use self::packet::spec_identifier;
pub use self::packet::spec_is_request;
pub use self::packet::spec_packet_bytes;
pub use self::packet::spec_sequence;
pub use self::packet::spec_valid;
pub use self::packet::Packet;

mod builder;
pub use self::builder::lemma_echo_build_bytes;
pub use self::builder::Builder;
