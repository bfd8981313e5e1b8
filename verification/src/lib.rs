pub mod error;
pub use crate::error::Error;

pub mod wire;

pub mod checksum;

pub mod octets;
pub use crate::octets::Octets;

pub mod buffer;
pub use crate::buffer::Buffer;

pub mod builder;
pub use crate::builder::Builder;

pub mod size;
pub use crate::size::Size;

pub mod icmp;

pub mod ip;
pub mod udp;
